//! Package formats and how the updater recognizes them.
use vstd::prelude::*;
use crate::path::{extension, file_name, name_extension, path_file_name};
use crate::text::{char_pred, chars_ends_with, chars_eq, ends_with, lower_seq, slice_range, split_ws, starts_with, string_from_chars, to_ascii_lowercase, to_chars, trim, trim_by, trim_char_matches, trim_chars, views, ws_tokens};

verus! {

/// The native package format in use on the current system.
#[derive(Debug, Clone, Copy, PartialEq, Eq, Structural)]
pub enum PackageKind {
    Deb,
    Rpm,
    Pacman,
    Gentoo,
}

pub open spec fn gentoo_suffix() -> Seq<char> {
    ".gentoo.tar.zst"@
}

pub open spec fn pacman_suffixes() -> Seq<Seq<char>> {
    seq![
        ".pkg.tar.zst"@,
        ".pkg.tar.xz"@,
        ".pkg.tar.gz"@,
        ".pkg.tar.bz2"@,
        ".pkg.tar.lz"@,
        ".pkg.tar.lz4"@,
        ".pkg.tar.lz5"@,
    ]
}

/// `name` without the first suffix of `sufs` that its ASCII-lowercased form ends with.
pub open spec fn strip_first_suffix(name: Seq<char>, sufs: Seq<Seq<char>>) -> Option<Seq<char>>
    decreases sufs.len(),
{
    if sufs.len() == 0 {
        None
    } else if ends_with(lower_seq(name), sufs[0]) {
        Some(name.take(name.len() - sufs[0].len()))
    } else {
        strip_first_suffix(name, sufs.drop_first())
    }
}

/// The file name without its pacman package suffix, matched case-insensitively.
pub open spec fn strip_pacman_suffix(name: Seq<char>) -> Option<Seq<char>> {
    strip_first_suffix(name, pacman_suffixes())
}

pub open spec fn is_gentoo_name(name: Seq<char>) -> bool {
    ends_with(lower_seq(name), gentoo_suffix())
}

pub open spec fn is_pacman_name(name: Seq<char>) -> bool {
    strip_pacman_suffix(name) is Some
}

/// The package kind a path names, by its file name: Gentoo overlay artifacts first,
/// then pacman packages, then `.rpm`; everything else is treated as Debian.
pub open spec fn kind_of_path(path: Seq<char>) -> PackageKind {
    let name = match file_name(path) {
        Some(n) => n,
        None => Seq::<char>::empty(),
    };
    if is_gentoo_name(name) {
        PackageKind::Gentoo
    } else if is_pacman_name(name) {
        PackageKind::Pacman
    } else if extension(name) == Some("rpm"@) {
        PackageKind::Rpm
    } else {
        PackageKind::Deb
    }
}

/// `file_name` without its pacman package suffix.
pub fn strip_pacman_package_suffix(file_name: &str) -> (r: Option<String>)
    ensures
        match r {
            Some(s) => strip_pacman_suffix(file_name@) == Some(s@),
            None => strip_pacman_suffix(file_name@) is None,
        },
{
    let name = to_chars(file_name);
    match strip_pacman_suffix_chars(name.as_slice()) {
        Some(v) => Some(string_from_chars(v.as_slice())),
        None => None,
    }
}

fn strip_pacman_suffix_chars(name: &[char]) -> (r: Option<Vec<char>>)
    ensures
        match r {
            Some(s) => strip_pacman_suffix(name@) == Some(s@),
            None => strip_pacman_suffix(name@) is None,
        },
{
    let lower = to_ascii_lowercase(name);
    let sufs: [&str; 7] = [
        ".pkg.tar.zst",
        ".pkg.tar.xz",
        ".pkg.tar.gz",
        ".pkg.tar.bz2",
        ".pkg.tar.lz",
        ".pkg.tar.lz4",
        ".pkg.tar.lz5",
    ];
    let ghost all = pacman_suffixes();
    assert(all.len() == 7);
    assert forall|k: int| 0 <= k < 7 implies #[trigger] sufs@[k]@ == all[k] by {}
    assert(all.skip(0) =~= all);
    let mut i: usize = 0;
    while i < 7
        invariant
            i <= 7,
            lower@ == lower_seq(name@),
            all == pacman_suffixes(),
            all.len() == 7,
            forall|k: int| 0 <= k < 7 ==> #[trigger] sufs@[k]@ == all[k],
            strip_first_suffix(name@, all.skip(i as int)) == strip_first_suffix(name@, all),
        decreases 7 - i,
    {
        let suf = to_chars(sufs[i]);
        let ghost rest = all.skip(i as int);
        assert(rest[0] == all[i as int]);
        assert(rest.drop_first() =~= all.skip(i + 1));
        if chars_ends_with(lower.as_slice(), suf.as_slice()) {
            let keep = name.len() - suf.len();
            return Some(slice_range(name, 0, keep));
        }
        i = i + 1;
    }
    assert(all.skip(7) =~= Seq::<Seq<char>>::empty());
    None
}

/// Whether the file name carries one of the pacman package suffixes.
pub fn is_pacman_package_file_name(file_name: &str) -> (r: bool)
    ensures
        r == is_pacman_name(file_name@),
{
    strip_pacman_package_suffix(file_name).is_some()
}

/// Whether the file name ends with `.gentoo.tar.zst`, ignoring ASCII case.
pub fn is_gentoo_package_file_name(file_name: &str) -> (r: bool)
    ensures
        r == is_gentoo_name(file_name@),
{
    let name = to_chars(file_name);
    let lower = to_ascii_lowercase(name.as_slice());
    let suf = to_chars(".gentoo.tar.zst");
    chars_ends_with(lower.as_slice(), suf.as_slice())
}

impl PackageKind {
    /// The package kind of a path, judged by its file name.
    pub fn from_path(path: &str) -> (r: PackageKind)
        ensures
            r == kind_of_path(path@),
    {
        let chars = to_chars(path);
        let name_chars: Vec<char> = match path_file_name(chars.as_slice()) {
            Some(n) => n,
            None => Vec::new(),
        };
        let name = string_from_chars(name_chars.as_slice());
        assert(name@ == (match file_name(path@) {
            Some(n) => n,
            None => Seq::<char>::empty(),
        }));
        if is_gentoo_package_file_name(name.as_str()) {
            return PackageKind::Gentoo;
        }
        if is_pacman_package_file_name(name.as_str()) {
            return PackageKind::Pacman;
        }
        let rpm = to_chars("rpm");
        match name_extension(name_chars.as_slice()) {
            Some(ext) => {
                if chars_eq(ext.as_slice(), rpm.as_slice()) {
                    PackageKind::Rpm
                } else {
                    PackageKind::Deb
                }
            },
            None => PackageKind::Deb,
        }
    }
}

} // verus!

verus! {

/// Whether some whitespace-separated token of some field is one of `expected`.
pub open spec fn release_matches(fields: Seq<Seq<char>>, expected: Seq<Seq<char>>) -> bool {
    exists|i: int, j: int|
        0 <= i < fields.len() && 0 <= j < expected.len() && #[trigger] ws_tokens(fields[i]).contains(
            #[trigger] expected[j],
        )
}

pub open spec fn str_views(v: Seq<&str>) -> Seq<Seq<char>> {
    v.map_values(|s: &str| s@)
}

/// Whether a whitespace-separated token of one of `fields` is one of `expected`.
pub fn os_release_matches(fields: &[&str], expected: &[&str]) -> (r: bool)
    ensures
        r == release_matches(str_views(fields@), str_views(expected@)),
{
    let ghost fv = str_views(fields@);
    let ghost ev = str_views(expected@);
    let mut i: usize = 0;
    while i < fields.len()
        invariant
            i <= fields.len(),
            fv.len() == fields@.len(),
            ev.len() == expected@.len(),
            fv == str_views(fields@),
            ev == str_views(expected@),
            forall|a: int, b: int|
                0 <= a < i && 0 <= b < ev.len() ==> !#[trigger] ws_tokens(fv[a]).contains(
                    #[trigger] ev[b],
                ),
        decreases fields.len() - i,
    {
        let field = to_chars(fields[i]);
        let tokens = split_ws(field.as_slice());
        let ghost tv = views(tokens@);
        assert(tv == ws_tokens(fv[i as int]));
        let mut j: usize = 0;
        while j < expected.len()
            invariant
                i < fields.len(),
                j <= expected.len(),
                fv.len() == fields@.len(),
                ev.len() == expected@.len(),
                fv == str_views(fields@),
                ev == str_views(expected@),
                tv == views(tokens@),
                tv == ws_tokens(fv[i as int]),
                forall|b: int| 0 <= b < j ==> !tv.contains(#[trigger] ev[b]),
            decreases expected.len() - j,
        {
            let want = to_chars(expected[j]);
            let mut k: usize = 0;
            while k < tokens.len()
                invariant
                    i < fields.len(),
                    j < expected.len(),
                    k <= tokens.len(),
                    fv == str_views(fields@),
                    ev == str_views(expected@),
                    fv.len() == fields@.len(),
                    ev.len() == expected@.len(),
                    tv == ws_tokens(fv[i as int]),
                    want@ == ev[j as int],
                    tv == views(tokens@),
                    forall|m: int| 0 <= m < k ==> tv[m] != ev[j as int],
                decreases tokens.len() - k,
            {
                if chars_eq(tokens[k].as_slice(), want.as_slice()) {
                    proof {
                        assert(tv[k as int] == ev[j as int]);
                        assert(tv.contains(ev[j as int]));
                        assert(ws_tokens(fv[i as int]).contains(ev[j as int]));
                    }
                    return true;
                }
                k = k + 1;
            }
            proof {
                assert(!tv.contains(ev[j as int])) by {
                    if tv.contains(ev[j as int]) {
                        let m = choose|m: int| 0 <= m < tv.len() && tv[m] == ev[j as int];
                        assert(tv[m] != ev[j as int]);
                    }
                }
            }
            j = j + 1;
        }
        i = i + 1;
    }
    false
}

pub open spec fn gentoo_ids() -> Seq<Seq<char>> {
    seq!["gentoo"@]
}

pub open spec fn arch_ids() -> Seq<Seq<char>> {
    seq!["arch"@, "archlinux"@, "manjaro"@, "endeavouros"@, "artix"@]
}

pub open spec fn debian_ids() -> Seq<Seq<char>> {
    seq!["debian"@, "ubuntu"@, "linuxmint"@, "pop"@, "elementary"@, "zorin"@]
}

pub open spec fn rpm_ids() -> Seq<Seq<char>> {
    seq!["fedora"@, "rhel"@, "centos"@, "rocky"@, "almalinux"@, "ol"@, "sles"@, "suse"@, "opensuse"@]
}

/// What the system reports about its package tooling: which package-manager
/// programs exist, whether Codex is installed through each of them, and the
/// `ID` / `ID_LIKE` fields of `/etc/os-release`.
pub struct PackageDetection {
    pub has_pacman: bool,
    pub has_emerge: bool,
    pub has_dpkg: bool,
    pub has_rpm: bool,
    pub pacman_installed: bool,
    pub gentoo_installed: bool,
    pub deb_installed: bool,
    pub rpm_installed: bool,
    pub os_release: Option<(String, String)>,
}

impl Default for PackageDetection {
    fn default() -> (r: Self)
        ensures
            !r.has_pacman && !r.has_emerge && !r.has_dpkg && !r.has_rpm,
            !r.pacman_installed && !r.gentoo_installed && !r.deb_installed && !r.rpm_installed,
            r.os_release is None,
    {
        PackageDetection {
            has_pacman: false,
            has_emerge: false,
            has_dpkg: false,
            has_rpm: false,
            pacman_installed: false,
            gentoo_installed: false,
            deb_installed: false,
            rpm_installed: false,
            os_release: None,
        }
    }
}

/// The package kind of the distribution family that `/etc/os-release` names, if it
/// names a known one: Gentoo, then the Arch family, the Debian family, the RPM family.
pub open spec fn release_kind(os_release: Option<(String, String)>) -> Option<PackageKind> {
    match os_release {
        Some((id, id_like)) => {
            let fields = seq![id@, id_like@];
            if release_matches(fields, gentoo_ids()) {
                Some(PackageKind::Gentoo)
            } else if release_matches(fields, arch_ids()) {
                Some(PackageKind::Pacman)
            } else if release_matches(fields, debian_ids()) {
                Some(PackageKind::Deb)
            } else if release_matches(fields, rpm_ids()) {
                Some(PackageKind::Rpm)
            } else {
                None
            }
        },
        None => None,
    }
}

/// The detected package kind: the distribution family named by `/etc/os-release`
/// wins (Gentoo, then Arch family, Debian family, RPM family); otherwise an
/// installed Codex package (pacman, Gentoo, Debian, RPM); otherwise the first
/// package tool found (dpkg, rpm, pacman, emerge); Debian when nothing is known.
pub open spec fn detected_kind(d: PackageDetection) -> PackageKind {
    let by_release = release_kind(d.os_release);
    match by_release {
        Some(kind) => kind,
        None => if d.pacman_installed {
            PackageKind::Pacman
        } else if d.gentoo_installed {
            PackageKind::Gentoo
        } else if d.deb_installed {
            PackageKind::Deb
        } else if d.rpm_installed {
            PackageKind::Rpm
        } else if d.has_dpkg {
            PackageKind::Deb
        } else if d.has_rpm {
            PackageKind::Rpm
        } else if d.has_pacman {
            PackageKind::Pacman
        } else if d.has_emerge {
            PackageKind::Gentoo
        } else {
            PackageKind::Deb
        },
    }
}

/// Chooses the package kind from what the system reports.
pub fn detect_package_kind(detection: PackageDetection) -> (r: PackageKind)
    ensures
        r == detected_kind(detection),
{
    let ghost d = detection;
    if let Some((id, id_like)) = &detection.os_release {
        let fields: [&str; 2] = [id.as_str(), id_like.as_str()];
        let ghost fv = seq![id@, id_like@];
        assert(str_views(fields@) =~= fv);
        let gentoo: [&str; 1] = ["gentoo"];
        assert(str_views(gentoo@) =~= gentoo_ids());
        if os_release_matches(&fields, &gentoo) {
            return PackageKind::Gentoo;
        }
        let arch: [&str; 5] = ["arch", "archlinux", "manjaro", "endeavouros", "artix"];
        assert(str_views(arch@) =~= arch_ids());
        if os_release_matches(&fields, &arch) {
            return PackageKind::Pacman;
        }
        let debian: [&str; 6] = ["debian", "ubuntu", "linuxmint", "pop", "elementary", "zorin"];
        assert(str_views(debian@) =~= debian_ids());
        if os_release_matches(&fields, &debian) {
            return PackageKind::Deb;
        }
        let rpm: [&str; 9] = [
            "fedora",
            "rhel",
            "centos",
            "rocky",
            "almalinux",
            "ol",
            "sles",
            "suse",
            "opensuse",
        ];
        assert(str_views(rpm@) =~= rpm_ids());
        if os_release_matches(&fields, &rpm) {
            return PackageKind::Rpm;
        }
    }
    if detection.pacman_installed {
        return PackageKind::Pacman;
    }
    if detection.gentoo_installed {
        return PackageKind::Gentoo;
    }
    if detection.deb_installed {
        return PackageKind::Deb;
    }
    if detection.rpm_installed {
        return PackageKind::Rpm;
    }
    if detection.has_dpkg {
        PackageKind::Deb
    } else if detection.has_rpm {
        PackageKind::Rpm
    } else if detection.has_pacman {
        PackageKind::Pacman
    } else if detection.has_emerge {
        PackageKind::Gentoo
    } else {
        PackageKind::Deb
    }
}

/// `str::trim` followed by stripping matching `"` and then `'` quotes, as the
/// values of `/etc/os-release` are read.
pub open spec fn os_release_value(value: Seq<char>) -> Seq<char> {
    trim_by(trim_by(trim(value), char_pred('"')), char_pred('\''))
}

/// An `/etc/os-release` value without surrounding whitespace and quotes.
pub fn trim_os_release_value(value: &str) -> (r: String)
    ensures
        r@ == os_release_value(value@),
{
    let v = to_chars(value);
    let a = trim_chars(v.as_slice());
    let b = trim_char_matches(a.as_slice(), '"');
    let c = trim_char_matches(b.as_slice(), '\'');
    string_from_chars(c.as_slice())
}

} // verus!

verus! {

/// The `ID` and `ID_LIKE` fields that `/etc/os-release` lines give, trimmed of
/// white space and quotes and in lower case; a later line wins, and a missing field
/// is empty.
pub open spec fn os_release_fields_of(ls: Seq<Seq<char>>) -> (Seq<char>, Seq<char>)
    decreases ls.len(),
{
    if ls.len() == 0 {
        (Seq::empty(), Seq::empty())
    } else {
        let (id, id_like) = os_release_fields_of(ls.drop_last());
        let l = ls.last();
        if starts_with(l, "ID="@) {
            (lower_seq(os_release_value(l.skip(3))), id_like)
        } else if starts_with(l, "ID_LIKE="@) {
            (id, lower_seq(os_release_value(l.skip(8))))
        } else {
            (id, id_like)
        }
    }
}

/// Reads the `ID` and `ID_LIKE` fields from the text of `/etc/os-release`.
pub fn os_release_fields(contents: &str) -> (r: (String, String))
    ensures
        (r.0@, r.1@) == os_release_fields_of(crate::text::lines(contents@)),
{
    let chars = to_chars(contents);
    let ls = crate::text::split_lines(chars.as_slice());
    let ghost all = views(ls@);
    let id_prefix = to_chars("ID=");
    let like_prefix = to_chars("ID_LIKE=");
    proof {
        reveal_strlit("ID=");
        reveal_strlit("ID_LIKE=");
    }
    let mut id: Vec<char> = Vec::new();
    let mut id_like: Vec<char> = Vec::new();
    let mut i: usize = 0;
    assert(all.take(0) =~= Seq::<Seq<char>>::empty());
    while i < ls.len()
        invariant
            i <= ls.len(),
            all == views(ls@),
            id_prefix@ == "ID="@,
            like_prefix@ == "ID_LIKE="@,
            id_prefix@.len() == 3,
            like_prefix@.len() == 8,
            (id@, id_like@) == os_release_fields_of(all.take(i as int)),
        decreases ls.len() - i,
    {
        let l = &ls[i];
        assert(all.take(i + 1).drop_last() =~= all.take(i as int));
        assert(all.take(i + 1).last() == l@);
        if crate::text::chars_starts_with(l.as_slice(), id_prefix.as_slice()) {
            let rest = slice_range(l.as_slice(), 3, l.len());
            assert(rest@ =~= l@.skip(3));
            let v = trim_os_release_value(string_from_chars(rest.as_slice()).as_str());
            let vc = to_chars(v.as_str());
            id = to_ascii_lowercase(vc.as_slice());
        } else if crate::text::chars_starts_with(l.as_slice(), like_prefix.as_slice()) {
            let rest = slice_range(l.as_slice(), 8, l.len());
            assert(rest@ =~= l@.skip(8));
            let v = trim_os_release_value(string_from_chars(rest.as_slice()).as_str());
            let vc = to_chars(v.as_str());
            id_like = to_ascii_lowercase(vc.as_slice());
        }
        i = i + 1;
    }
    assert(all.take(ls.len() as int) =~= all);
    (string_from_chars(id.as_slice()), string_from_chars(id_like.as_slice()))
}

} // verus!

verus! {

/// When `/etc/os-release` names a known distribution family, that family decides the
/// package kind, whatever package tools or installed packages the system has.
pub proof fn law_os_release_decides(d: PackageDetection)
    requires
        release_kind(d.os_release) is Some,
    ensures
        detected_kind(d) == release_kind(d.os_release)->0,
{
}

/// Otherwise an installed Codex package decides, whatever package tools exist.
pub proof fn law_installed_package_outranks_tools(d: PackageDetection, e: PackageDetection)
    requires
        release_kind(d.os_release) is None,
        release_kind(e.os_release) is None,
        d.pacman_installed == e.pacman_installed,
        d.gentoo_installed == e.gentoo_installed,
        d.deb_installed == e.deb_installed,
        d.rpm_installed == e.rpm_installed,
        d.pacman_installed || d.gentoo_installed || d.deb_installed || d.rpm_installed,
    ensures
        detected_kind(d) == detected_kind(e),
{
}

/// A path's package kind depends on its file name alone.
pub proof fn law_kind_follows_the_file_name(a: Seq<char>, b: Seq<char>)
    requires
        file_name(a) == file_name(b),
    ensures
        kind_of_path(a) == kind_of_path(b),
{
}

} // verus!
