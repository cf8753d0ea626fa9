//! What the system reports about the installed Codex package, and the text the
//! package tools print.
use vstd::prelude::*;
use vstd::utf8::*;
use crate::package::{PackageDetection, PackageKind, detect_package_kind, detected_kind};
use crate::text::{split_ws, string_from_chars, to_chars, trim, trim_chars, views, ws_tokens};

verus! {

/// The text that `String::from_utf8_lossy` makes of some bytes.
pub uninterp spec fn utf8_lossy(bytes: Seq<u8>) -> Seq<char>;

/// `String::from_utf8_lossy`. Its result is named `utf8_lossy`; valid UTF-8 is
/// decoded as it is. Which replacement characters stand for invalid sequences is
/// left to the name.
#[verifier::external_body]
pub(crate) fn from_utf8_lossy(bytes: &[u8]) -> (r: String)
    ensures
        r@ == utf8_lossy(bytes@),
        valid_utf8(bytes@) ==> r@ == decode_utf8(bytes@),
{
    String::from_utf8_lossy(bytes).into_owned()
}

/// `String::from_utf8`: the decoded text exactly when the bytes are valid UTF-8.
#[verifier::external_body]
pub(crate) fn from_utf8(bytes: Vec<u8>) -> (r: Option<String>)
    ensures
        r is Some <==> valid_utf8(bytes@),
        r matches Some(s) ==> s@ == decode_utf8(bytes@),
{
    match String::from_utf8(bytes) {
        Ok(s) => Some(s),
        Err(_) => None,
    }
}

pub open spec fn unknown() -> Seq<char> {
    "unknown"@
}

/// The version reported when none is known: `unknown`.
pub fn unknown_version() -> (r: String)
    ensures
        r@ == unknown(),
        r@.len() > 0,
{
    proof {
        reveal_strlit("unknown");
    }
    String::from_str("unknown")
}

/// The installed version that a query printed: its trimmed output, or `unknown`
/// when that is empty.
pub open spec fn installed_version_text(stdout: Seq<u8>) -> Seq<char> {
    let t = trim(utf8_lossy(stdout));
    if t.len() == 0 {
        unknown()
    } else {
        t
    }
}

/// Reads the version that `dpkg-query` or `rpm -q` printed.
pub fn parse_installed_version(stdout: Vec<u8>) -> (r: String)
    ensures
        r@ == installed_version_text(stdout@),
        reported_version(r@),
{
    let text = from_utf8_lossy(stdout.as_slice());
    let chars = to_chars(text.as_str());
    let t = trim_chars(chars.as_slice());
    if t.len() == 0 {
        unknown_version()
    } else {
        string_from_chars(t.as_slice())
    }
}

/// The version that `pacman -Q` printed: its second whitespace-separated field, or
/// `unknown` when there is none.
pub open spec fn pacman_installed_version_text(stdout: Seq<u8>) -> Seq<char> {
    let tokens = ws_tokens(utf8_lossy(stdout));
    let v = if tokens.len() > 1 {
        trim(tokens[1])
    } else {
        Seq::<char>::empty()
    };
    if v.len() == 0 {
        unknown()
    } else {
        v
    }
}

/// Reads the version that `pacman -Q codex-desktop` printed.
pub fn parse_pacman_installed_version(stdout: Vec<u8>) -> (r: String)
    ensures
        r@ == pacman_installed_version_text(stdout@),
        reported_version(r@),
{
    let text = from_utf8_lossy(stdout.as_slice());
    let chars = to_chars(text.as_str());
    let tokens = split_ws(chars.as_slice());
    let v: Vec<char> = if tokens.len() > 1 {
        assert(views(tokens@)[1] == tokens@[1]@);
        trim_chars(tokens[1].as_slice())
    } else {
        Vec::new()
    };
    if v.len() == 0 {
        unknown_version()
    } else {
        string_from_chars(v.as_slice())
    }
}

/// A version as the package databases are read for it: never empty, `unknown` when
/// no version is known.
pub open spec fn reported_version(v: Seq<char>) -> bool {
    v.len() > 0
}

/// What the updater learns by probing the system: which package tools exist, the
/// version each package database reports for Codex (`unknown` when none), and the
/// `ID` / `ID_LIKE` fields of `/etc/os-release`.
pub struct SystemProbe {
    pub has_pacman: bool,
    pub has_emerge: bool,
    pub has_dpkg: bool,
    pub has_rpm: bool,
    pub deb_version: String,
    pub rpm_version: String,
    pub pacman_version: String,
    pub gentoo_version: String,
    pub os_release: Option<(String, String)>,
}

/// The detection facts a probe gives: a package counts as installed when its
/// reported version is not `unknown`.
pub open spec fn probe_detection(p: SystemProbe) -> PackageDetection {
    PackageDetection {
        has_pacman: p.has_pacman,
        has_emerge: p.has_emerge,
        has_dpkg: p.has_dpkg,
        has_rpm: p.has_rpm,
        pacman_installed: p.pacman_version@ != unknown(),
        gentoo_installed: p.gentoo_version@ != unknown(),
        deb_installed: p.deb_version@ != unknown(),
        rpm_installed: p.rpm_version@ != unknown(),
        os_release: p.os_release,
    }
}

/// The version of Codex in the package database of the detected package kind.
pub open spec fn installed_version_of(p: SystemProbe) -> Seq<char> {
    match detected_kind(probe_detection(p)) {
        PackageKind::Deb => p.deb_version@,
        PackageKind::Rpm => p.rpm_version@,
        PackageKind::Pacman => p.pacman_version@,
        PackageKind::Gentoo => p.gentoo_version@,
    }
}

fn is_known(version: &String) -> (r: bool)
    ensures
        r == (version@ != unknown()),
{
    let u = unknown_version();
    !(*version == u)
}

impl SystemProbe {
    /// Every version the probe holds is one the package databases can report.
    pub open spec fn wf(&self) -> bool {
        &&& reported_version(self.deb_version@)
        &&& reported_version(self.rpm_version@)
        &&& reported_version(self.pacman_version@)
        &&& reported_version(self.gentoo_version@)
    }

    /// Whether every version the probe holds is one the package databases can report.
    pub fn versions_reported(&self) -> (r: bool)
        ensures
            r == self.wf(),
    {
        self.deb_version.as_str().unicode_len() > 0 && self.rpm_version.as_str().unicode_len() > 0
            && self.pacman_version.as_str().unicode_len() > 0
            && self.gentoo_version.as_str().unicode_len() > 0
    }

    /// The detection facts of this probe.
    pub fn to_detection(&self) -> (r: PackageDetection)
        ensures
            r == probe_detection(*self),
    {
        let os_release = match &self.os_release {
            Some((id, id_like)) => Some((id.clone(), id_like.clone())),
            None => None,
        };
        PackageDetection {
            has_pacman: self.has_pacman,
            has_emerge: self.has_emerge,
            has_dpkg: self.has_dpkg,
            has_rpm: self.has_rpm,
            pacman_installed: is_known(&self.pacman_version),
            gentoo_installed: is_known(&self.gentoo_version),
            deb_installed: is_known(&self.deb_version),
            rpm_installed: is_known(&self.rpm_version),
            os_release,
        }
    }
}

impl PackageKind {
    /// The package kind of the system the probe describes.
    pub fn detect(probe: &SystemProbe) -> (r: PackageKind)
        ensures
            r == detected_kind(probe_detection(*probe)),
    {
        detect_package_kind(probe.to_detection())
    }
}

/// The version the probe holds for the detected package kind.
fn detected_version(probe: &SystemProbe) -> (r: String)
    ensures
        r@ == installed_version_of(*probe),
{
    match PackageKind::detect(probe) {
        PackageKind::Deb => probe.deb_version.clone(),
        PackageKind::Rpm => probe.rpm_version.clone(),
        PackageKind::Pacman => probe.pacman_version.clone(),
        PackageKind::Gentoo => probe.gentoo_version.clone(),
    }
}

/// Returns the currently installed package version when available: never empty,
/// `unknown` when the detected package database knows none.
pub fn installed_package_version(probe: &SystemProbe) -> (r: String)
    requires
        probe.wf(),
    ensures
        r@ == installed_version_of(*probe),
        r@.len() > 0,
        detected_kind(probe_detection(*probe)) == PackageKind::Deb ==> r@ == probe.deb_version@,
        detected_kind(probe_detection(*probe)) == PackageKind::Rpm ==> r@ == probe.rpm_version@,
        detected_kind(probe_detection(*probe)) == PackageKind::Pacman ==> r@ == probe.pacman_version@,
        detected_kind(probe_detection(*probe)) == PackageKind::Gentoo ==> r@ == probe.gentoo_version@,
{
    detected_version(probe)
}

/// Returns whether the primary native package still appears to be installed.
pub fn is_primary_package_installed(probe: &SystemProbe) -> (r: bool)
    ensures
        r == (installed_version_of(*probe) != unknown()),
        detected_kind(probe_detection(*probe)) == PackageKind::Deb ==> r == (probe.deb_version@ != unknown()),
        detected_kind(probe_detection(*probe)) == PackageKind::Rpm ==> r == (probe.rpm_version@ != unknown()),
        detected_kind(probe_detection(*probe)) == PackageKind::Pacman ==> r == (probe.pacman_version@
            != unknown()),
        detected_kind(probe_detection(*probe)) == PackageKind::Gentoo ==> r == (probe.gentoo_version@
            != unknown()),
{
    let v = detected_version(probe);
    is_known(&v)
}

/// The installed version is the one the package database of the detected package
/// kind reports: dpkg's on a Debian system, rpm's on an RPM system, pacman's on an
/// Arch system and Portage's on Gentoo; the other databases play no part.
pub proof fn law_installed_version_comes_from_the_detected_database(p: SystemProbe)
    ensures
        detected_kind(probe_detection(p)) == PackageKind::Deb ==> installed_version_of(p) == p.deb_version@,
        detected_kind(probe_detection(p)) == PackageKind::Rpm ==> installed_version_of(p) == p.rpm_version@,
        detected_kind(probe_detection(p)) == PackageKind::Pacman ==> installed_version_of(p)
            == p.pacman_version@,
        detected_kind(probe_detection(p)) == PackageKind::Gentoo ==> installed_version_of(p)
            == p.gentoo_version@,
{
}

} // verus!
