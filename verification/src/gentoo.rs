//! Gentoo overlay artifacts: the metadata they carry, the checks it must pass, and
//! the installed versions Portage records.
use vstd::prelude::*;
use vstd::utf8::*;
use crate::installed::{from_utf8, from_utf8_lossy, unknown, unknown_version, utf8_lossy};
use crate::text::{
    append_chars, append_str, chars_ends_with, chars_eq, chars_starts_with, ends_with, lines,
    slice_range, split_lines, starts_with, str_result, string_from_chars, to_chars, trim,
    trim_chars, unit_result, views,
};
use crate::version::{generated_version, parse_generated_package_version};

verus! {

pub open spec fn gentoo_category() -> Seq<char> {
    "app-editors"@
}

pub open spec fn gentoo_package_name() -> Seq<char> {
    "codex-desktop-bin"@
}

pub open spec fn gentoo_repo_name() -> Seq<char> {
    "codex-desktop-linux"@
}

/// The first entry of a tar listing that is `suffix` or ends in `/suffix`.
pub open spec fn find_entry(entries: Seq<Seq<char>>, suffix: Seq<char>) -> Option<Seq<char>>
    decreases entries.len(),
{
    if entries.len() == 0 {
        None
    } else if entries[0] == suffix || ends_with(entries[0], "/"@ + suffix) {
        Some(entries[0])
    } else {
        find_entry(entries.drop_first(), suffix)
    }
}

/// The entry of an artifact's listing that holds `suffix`.
pub fn gentoo_artifact_entry(entries: &str, suffix: &str) -> (r: Option<String>)
    ensures
        match r {
            Some(e) => find_entry(lines(entries@), suffix@) == Some(e@),
            None => find_entry(lines(entries@), suffix@) is None,
        },
{
    let chars = to_chars(entries);
    let ls = split_lines(chars.as_slice());
    let ghost all = views(ls@);
    let suffix_chars = to_chars(suffix);
    let mut slash_suffix = to_chars("/");
    append_str(&mut slash_suffix, suffix);
    let mut i: usize = 0;
    assert(all.skip(0) =~= all);
    while i < ls.len()
        invariant
            i <= ls.len(),
            all == views(ls@),
            all == lines(entries@),
            suffix_chars@ == suffix@,
            slash_suffix@ == "/"@ + suffix@,
            find_entry(all.skip(i as int), suffix@) == find_entry(all, suffix@),
        decreases ls.len() - i,
    {
        let e = &ls[i];
        assert(all.skip(i as int)[0] == e@);
        assert(all.skip(i as int).drop_first() =~= all.skip(i + 1));
        if chars_eq(e.as_slice(), suffix_chars.as_slice()) || chars_ends_with(
            e.as_slice(),
            slash_suffix.as_slice(),
        ) {
            return Some(string_from_chars(e.as_slice()));
        }
        i = i + 1;
    }
    assert(all.skip(i as int).len() == 0);
    None
}

/// The error for an artifact that lacks an entry.
pub fn missing_entry_error(path: &str, suffix: &str) -> (r: String)
    ensures
        r@ == "Gentoo artifact "@ + path@ + " is missing "@ + suffix@,
{
    let mut m = to_chars("Gentoo artifact ");
    append_str(&mut m, path);
    append_str(&mut m, " is missing ");
    append_str(&mut m, suffix);
    string_from_chars(m.as_slice())
}

/// What `tar -tf` printed of an artifact: its listing, when tar succeeded and
/// printed UTF-8.
pub open spec fn listing_text(status_ok: bool, stdout: Seq<u8>, path: Seq<char>) -> Result<
    Seq<char>,
    Seq<char>,
> {
    if !status_ok {
        Err("tar could not list Gentoo artifact "@ + path)
    } else if !valid_utf8(stdout) {
        Err("tar returned non-UTF8 Gentoo artifact entries"@)
    } else {
        Ok(decode_utf8(stdout))
    }
}

/// Reads the listing of the artifact at `path`.
pub fn artifact_listing(status_ok: bool, stdout: Vec<u8>, path: &str) -> (r: Result<String, String>)
    ensures
        str_result(r) == listing_text(status_ok, stdout@, path@),
{
    if !status_ok {
        let mut m = to_chars("tar could not list Gentoo artifact ");
        append_str(&mut m, path);
        return Err(string_from_chars(m.as_slice()));
    }
    match from_utf8(stdout) {
        Some(t) => Ok(t),
        None => Err(String::from_str("tar returned non-UTF8 Gentoo artifact entries")),
    }
}

/// A metadata field that `tar -xOf` printed from the artifact's `metadata_path`.
pub open spec fn metadata_value(
    status_ok: bool,
    stdout: Seq<u8>,
    metadata_path: Seq<char>,
    field: Seq<char>,
    path: Seq<char>,
) -> Result<Seq<char>, Seq<char>> {
    if !status_ok {
        Err("tar could not read "@ + metadata_path + " from "@ + path)
    } else if !valid_utf8(stdout) {
        Err("Gentoo artifact metadata "@ + field + " is not UTF-8"@)
    } else if trim(decode_utf8(stdout)).len() == 0 {
        Err("Gentoo artifact metadata "@ + field + " is empty in "@ + path)
    } else {
        Ok(trim(decode_utf8(stdout)))
    }
}

/// Reads one metadata field of the artifact at `path`.
pub fn artifact_metadata_value(
    status_ok: bool,
    stdout: Vec<u8>,
    metadata_path: &str,
    field: &str,
    path: &str,
) -> (r: Result<String, String>)
    ensures
        str_result(r) == metadata_value(status_ok, stdout@, metadata_path@, field@, path@),
{
    if !status_ok {
        let mut m = to_chars("tar could not read ");
        append_str(&mut m, metadata_path);
        append_str(&mut m, " from ");
        append_str(&mut m, path);
        return Err(string_from_chars(m.as_slice()));
    }
    let text = match from_utf8(stdout) {
        Some(t) => t,
        None => {
            let mut m = to_chars("Gentoo artifact metadata ");
            append_str(&mut m, field);
            append_str(&mut m, " is not UTF-8");
            return Err(string_from_chars(m.as_slice()));
        },
    };
    let c = to_chars(text.as_str());
    let t = trim_chars(c.as_slice());
    if t.len() == 0 {
        let mut m = to_chars("Gentoo artifact metadata ");
        append_str(&mut m, field);
        append_str(&mut m, " is empty in ");
        append_str(&mut m, path);
        return Err(string_from_chars(m.as_slice()));
    }
    Ok(string_from_chars(t.as_slice()))
}

/// The artifact's `package-name` must be `codex-desktop-bin`.
pub fn check_gentoo_package_name(package_name: &str, path: &str) -> (r: Result<(), String>)
    ensures
        unit_result(r) == if package_name@ == gentoo_package_name() {
            Ok(())
        } else {
            Err(
                "Refusing to install Gentoo package "@ + package_name@ + " from "@ + path@
                    + "; expected codex-desktop-bin"@,
            )
        },
{
    if crate::pending::str_eq(package_name, "codex-desktop-bin") {
        Ok(())
    } else {
        let mut m = to_chars("Refusing to install Gentoo package ");
        append_str(&mut m, package_name);
        append_str(&mut m, " from ");
        append_str(&mut m, path);
        append_str(&mut m, "; expected codex-desktop-bin");
        Err(string_from_chars(m.as_slice()))
    }
}

/// The artifact's `category` must be `app-editors`.
pub fn check_gentoo_category(category: &str, path: &str) -> (r: Result<(), String>)
    ensures
        unit_result(r) == if category@ == gentoo_category() {
            Ok(())
        } else {
            Err(
                "Refusing to install Gentoo category "@ + category@ + " from "@ + path@
                    + "; expected app-editors"@,
            )
        },
{
    if crate::pending::str_eq(category, "app-editors") {
        Ok(())
    } else {
        let mut m = to_chars("Refusing to install Gentoo category ");
        append_str(&mut m, category);
        append_str(&mut m, " from ");
        append_str(&mut m, path);
        append_str(&mut m, "; expected app-editors");
        Err(string_from_chars(m.as_slice()))
    }
}

/// The artifact's `package-version` must be a generated Codex package version.
pub fn check_gentoo_version(version: &str, path: &str) -> (r: Result<(), String>)
    ensures
        unit_result(r) == if generated_version(version@) is Some {
            Ok(())
        } else {
            Err(
                "Gentoo package version "@ + version@ + " from "@ + path@
                    + " is not a generated Codex package version"@,
            )
        },
{
    if parse_generated_package_version(version).is_some() {
        Ok(())
    } else {
        let mut m = to_chars("Gentoo package version ");
        append_str(&mut m, version);
        append_str(&mut m, " from ");
        append_str(&mut m, path);
        append_str(&mut m, " is not a generated Codex package version");
        Err(string_from_chars(m.as_slice()))
    }
}

/// The distfile an artifact of `version` must name.
pub open spec fn expected_distfile(version: Seq<char>) -> Seq<char> {
    "codex-desktop-bin-"@ + version + ".tar.zst"@
}

/// The artifact's `distfile` must be `codex-desktop-bin-<version>.tar.zst`.
pub fn check_gentoo_distfile(distfile: &str, version: &str, path: &str) -> (r: Result<(), String>)
    ensures
        unit_result(r) == if distfile@ == expected_distfile(version@) {
            Ok(())
        } else {
            Err(
                "Gentoo distfile "@ + distfile@ + " from "@ + path@ + " does not match package version "@
                    + version@,
            )
        },
{
    let mut expected = to_chars("codex-desktop-bin-");
    append_str(&mut expected, version);
    append_str(&mut expected, ".tar.zst");
    let d = to_chars(distfile);
    if chars_eq(d.as_slice(), expected.as_slice()) {
        Ok(())
    } else {
        let mut m = to_chars("Gentoo distfile ");
        append_str(&mut m, distfile);
        append_str(&mut m, " from ");
        append_str(&mut m, path);
        append_str(&mut m, " does not match package version ");
        append_str(&mut m, version);
        Err(string_from_chars(m.as_slice()))
    }
}

/// The unpacked artifact's package name must be `codex-desktop-bin`.
pub fn check_artifact_package(package_name: &str) -> (r: Result<(), String>)
    ensures
        unit_result(r) == if package_name@ == gentoo_package_name() {
            Ok(())
        } else {
            Err("Gentoo artifact package is "@ + package_name@ + "; expected codex-desktop-bin"@)
        },
{
    if crate::pending::str_eq(package_name, "codex-desktop-bin") {
        Ok(())
    } else {
        let mut m = to_chars("Gentoo artifact package is ");
        append_str(&mut m, package_name);
        append_str(&mut m, "; expected codex-desktop-bin");
        Err(string_from_chars(m.as_slice()))
    }
}

/// The unpacked artifact's category must be `app-editors`.
pub fn check_artifact_category(category: &str) -> (r: Result<(), String>)
    ensures
        unit_result(r) == if category@ == gentoo_category() {
            Ok(())
        } else {
            Err("Gentoo artifact category is "@ + category@ + "; expected app-editors"@)
        },
{
    if crate::pending::str_eq(category, "app-editors") {
        Ok(())
    } else {
        let mut m = to_chars("Gentoo artifact category is ");
        append_str(&mut m, category);
        append_str(&mut m, "; expected app-editors");
        Err(string_from_chars(m.as_slice()))
    }
}

/// The unpacked artifact's overlay must be `codex-desktop-linux`.
pub fn check_artifact_repo(repo_name: &str) -> (r: Result<(), String>)
    ensures
        unit_result(r) == if repo_name@ == gentoo_repo_name() {
            Ok(())
        } else {
            Err("Gentoo artifact repo is "@ + repo_name@ + "; expected codex-desktop-linux"@)
        },
{
    if crate::pending::str_eq(repo_name, "codex-desktop-linux") {
        Ok(())
    } else {
        let mut m = to_chars("Gentoo artifact repo is ");
        append_str(&mut m, repo_name);
        append_str(&mut m, "; expected codex-desktop-linux");
        Err(string_from_chars(m.as_slice()))
    }
}

/// The Portage atom for `version`: `=app-editors/codex-desktop-bin-<version>`.
pub open spec fn gentoo_atom(version: Seq<char>) -> Seq<char> {
    "=app-editors/codex-desktop-bin-"@ + version
}

/// The unpacked artifact's atom must be the one for its version.
pub fn check_artifact_atom(atom: &str, version: &str) -> (r: Result<(), String>)
    ensures
        unit_result(r) == if atom@ == gentoo_atom(version@) {
            Ok(())
        } else {
            Err("Gentoo artifact atom "@ + atom@ + " does not match version "@ + version@)
        },
{
    let mut expected = to_chars("=app-editors/codex-desktop-bin-");
    append_str(&mut expected, version);
    let a = to_chars(atom);
    if chars_eq(a.as_slice(), expected.as_slice()) {
        Ok(())
    } else {
        let mut m = to_chars("Gentoo artifact atom ");
        append_str(&mut m, atom);
        append_str(&mut m, " does not match version ");
        append_str(&mut m, version);
        Err(string_from_chars(m.as_slice()))
    }
}

/// The `repos.conf` entry that registers the overlay.
pub fn gentoo_repos_conf(repo_name: &str, repo_root: &str) -> (r: String)
    ensures
        r@ == "["@ + repo_name@ + "]\nlocation = "@ + repo_root@
            + "\nmasters = gentoo\nauto-sync = no\n"@,
{
    let mut m = to_chars("[");
    append_str(&mut m, repo_name);
    append_str(&mut m, "]\nlocation = ");
    append_str(&mut m, repo_root);
    append_str(&mut m, "\nmasters = gentoo\nauto-sync = no\n");
    string_from_chars(m.as_slice())
}

/// The directory Portage keeps distfiles in: what `portageq envvar DISTDIR` printed,
/// trimmed, or `/var/cache/distfiles` when it failed or printed nothing.
pub fn distdir_from_portageq(status_ok: bool, stdout: &[u8]) -> (r: String)
    ensures
        r@ == if status_ok && trim(utf8_lossy(stdout@)).len() > 0 {
            trim(utf8_lossy(stdout@))
        } else {
            "/var/cache/distfiles"@
        },
{
    if status_ok {
        let text = from_utf8_lossy(stdout);
        let c = to_chars(text.as_str());
        let t = trim_chars(c.as_slice());
        if t.len() > 0 {
            return string_from_chars(t.as_slice());
        }
    }
    String::from_str("/var/cache/distfiles")
}

/// Strict order of strings, character by character (the order of `str`).
pub open spec fn str_lt(a: Seq<char>, b: Seq<char>) -> bool
    decreases a.len(),
{
    if a.len() == 0 {
        b.len() > 0
    } else if b.len() == 0 {
        false
    } else if a[0] != b[0] {
        a[0] < b[0]
    } else {
        str_lt(a.drop_first(), b.drop_first())
    }
}

proof fn lemma_str_lt_transitive(a: Seq<char>, b: Seq<char>, c: Seq<char>)
    requires
        str_lt(a, b),
        str_lt(b, c),
    ensures
        str_lt(a, c),
    decreases a.len(),
{
    if a.len() > 0 && b.len() > 0 && c.len() > 0 && a[0] == b[0] && b[0] == c[0] {
        lemma_str_lt_transitive(a.drop_first(), b.drop_first(), c.drop_first());
    }
}

proof fn lemma_str_lt_irreflexive(a: Seq<char>)
    ensures
        !str_lt(a, a),
    decreases a.len(),
{
    if a.len() > 0 {
        lemma_str_lt_irreflexive(a.drop_first());
    }
}

fn chars_lt(a: &[char], b: &[char]) -> (r: bool)
    ensures
        r == str_lt(a@, b@),
{
    let mut i: usize = 0;
    assert(a@.skip(0) =~= a@);
    assert(b@.skip(0) =~= b@);
    while i < a.len() && i < b.len() && a[i] == b[i]
        invariant
            i <= a.len(),
            i <= b.len(),
            str_lt(a@.skip(i as int), b@.skip(i as int)) == str_lt(a@, b@),
        decreases a.len() - i,
    {
        assert(a@.skip(i as int).drop_first() =~= a@.skip(i + 1));
        assert(b@.skip(i as int).drop_first() =~= b@.skip(i + 1));
        i = i + 1;
    }
    assert(a@.skip(i as int).len() == a.len() - i);
    if i == a.len() {
        i < b.len()
    } else if i == b.len() {
        false
    } else {
        a[i] < b[i]
    }
}

/// The version in a Portage package directory name `codex-desktop-bin-<version>`.
pub open spec fn vdb_version(name: Seq<char>) -> Option<Seq<char>> {
    if starts_with(name, "codex-desktop-bin-"@) && name.len() > 18 {
        Some(name.skip(18))
    } else {
        None
    }
}

/// The installed versions that package directory names record.
pub open spec fn vdb_versions(names: Seq<Seq<char>>) -> Set<Seq<char>> {
    Set::new(|v: Seq<char>| exists|i: int| 0 <= i < names.len() && vdb_version(names[i]) == Some(v))
}

/// The installed version Portage records among the directory names of the
/// `app-editors` category: the greatest recorded version, or `unknown` when there
/// is none.
pub fn latest_gentoo_version(names: &[String]) -> (r: String)
    ensures
        ({
            let vs = vdb_versions(names@.map_values(|n: String| n@));
            if vs.is_empty() {
                r@ == unknown()
            } else {
                vs.contains(r@) && forall|v: Seq<char>| vs.contains(v) ==> !str_lt(r@, v)
            }
        }),
        r@.len() > 0,
{
    let ghost all = names@.map_values(|n: String| n@);
    let prefix = to_chars("codex-desktop-bin-");
    proof {
        reveal_strlit("codex-desktop-bin-");
    }
    let mut best: Option<Vec<char>> = None;
    let mut i: usize = 0;
    while i < names.len()
        invariant
            i <= names.len(),
            all == names@.map_values(|n: String| n@),
            prefix@ == "codex-desktop-bin-"@,
            prefix@.len() == 18,
            match best {
                None => forall|k: int| 0 <= k < i ==> vdb_version(#[trigger] all[k]) is None,
                Some(b) => (exists|k: int| 0 <= k < i && vdb_version(all[k]) == Some(b@)) && forall|
                    k: int,
                | 0 <= k < i && #[trigger] vdb_version(all[k]) is Some ==> !str_lt(
                    b@,
                    vdb_version(all[k])->0,
                ),
            },
        decreases names.len() - i,
    {
        let name = to_chars(names[i].as_str());
        assert(all[i as int] == name@);
        if chars_starts_with(name.as_slice(), prefix.as_slice()) && name.len() > 18 {
            let v = slice_range(name.as_slice(), 18, name.len());
            assert(v@ =~= name@.skip(18));
            assert(vdb_version(all[i as int]) == Some(v@));
            let replace = match &best {
                None => true,
                Some(b) => chars_lt(b.as_slice(), v.as_slice()),
            };
            if replace {
                proof {
                    match &best {
                        None => {},
                        Some(b) => {
                            assert forall|k: int| 0 <= k < i + 1 && #[trigger] vdb_version(all[k]) is Some implies !str_lt(
                                v@,
                                vdb_version(all[k])->0,
                            ) by {
                                if k < i {
                                    if str_lt(v@, vdb_version(all[k])->0) {
                                        lemma_str_lt_transitive(b@, v@, vdb_version(all[k])->0);
                                    }
                                } else {
                                    lemma_str_lt_irreflexive(v@);
                                }
                            }
                        },
                    }
                    if best is None {
                        lemma_str_lt_irreflexive(v@);
                    }
                }
                best = Some(v);
            }
        } else {
            assert(vdb_version(all[i as int]) is None);
        }
        i = i + 1;
    }
    proof {
        let vs = vdb_versions(all);
        match &best {
            None => {
                if !vs.is_empty() {
                    let v = vs.choose();
                    assert(vs.contains(v));
                    let k = choose|k: int| 0 <= k < all.len() && vdb_version(all[k]) == Some(v);
                    assert(vdb_version(all[k]) is None);
                }
            },
            Some(b) => {
                let k = choose|k: int| 0 <= k < i && vdb_version(all[k]) == Some(b@);
                assert(vs.contains(b@));
                assert forall|v: Seq<char>| vs.contains(v) implies !str_lt(b@, v) by {
                    let j = choose|j: int| 0 <= j < all.len() && vdb_version(all[j]) == Some(v);
                    assert(vdb_version(all[j]) is Some);
                }
            },
        }
    }
    match best {
        None => unknown_version(),
        Some(b) => string_from_chars(b.as_slice()),
    }
}

/// Where an unpacked artifact's bundle lives: the unpacked directory itself when it
/// holds `metadata/package-name`, else its only subdirectory that does; any other
/// number of such subdirectories is refused.
pub fn choose_artifact_root<P>(
    extract_dir: P,
    root_has_metadata: bool,
    candidates: Vec<P>,
) -> (r: Result<P, String>)
    ensures
        match r {
            Ok(root) => if root_has_metadata {
                root == extract_dir
            } else {
                candidates@.len() == 1 && root == candidates@[0]
            },
            Err(e) => !root_has_metadata && candidates@.len() != 1 && e@
                == "Gentoo artifact must contain exactly one bundle root with metadata/package-name"@,
        },
{
    if root_has_metadata {
        return Ok(extract_dir);
    }
    if candidates.len() != 1 {
        return Err(
            String::from_str(
                "Gentoo artifact must contain exactly one bundle root with metadata/package-name",
            ),
        );
    }
    let mut candidates = candidates;
    Ok(candidates.remove(0))
}

} // verus!
