//! Checks a package must pass before the updater installs it: its name, the name it
//! is staged under, and the version its file name carries.
use vstd::prelude::*;
use vstd::utf8::*;
use crate::installed::from_utf8;
use crate::package::{PackageKind, kind_of_path, strip_pacman_suffix, strip_pacman_package_suffix};
use crate::path::{file_name, path_file_name};
use crate::text::{
    append_str, lemma_rfind_char, chars_starts_with, rfind, rsplit_once, slice_range, starts_with, str_result,
    string_from_chars, to_chars, trim, trim_chars, unit_result,
};

verus! {

/// The name of the package the updater installs.
pub open spec fn codex_package_name() -> Seq<char> {
    "codex-desktop"@
}

/// The file name a package is staged under: fixed for Debian, RPM and Gentoo, and
/// the package's own file name for pacman, whose tools read the version from it.
pub open spec fn stable_name(kind: PackageKind, path: Seq<char>) -> Result<Seq<char>, Seq<char>> {
    match kind {
        PackageKind::Deb => Ok("codex-desktop.deb"@),
        PackageKind::Rpm => Ok("codex-desktop.rpm"@),
        PackageKind::Gentoo => Ok("codex-desktop.gentoo.tar.zst"@),
        PackageKind::Pacman => match file_name(path) {
            Some(n) => Ok(n),
            None => Err("Pacman package path has no file name: "@ + path),
        },
    }
}

/// The file name under which a package of `kind` at `path` is staged.
pub fn stable_file_name(kind: PackageKind, path: &str) -> (r: Result<String, String>)
    ensures
        str_result(r) == stable_name(kind, path@),
{
    match kind {
        PackageKind::Deb => Ok(String::from_str("codex-desktop.deb")),
        PackageKind::Rpm => Ok(String::from_str("codex-desktop.rpm")),
        PackageKind::Gentoo => Ok(String::from_str("codex-desktop.gentoo.tar.zst")),
        PackageKind::Pacman => {
            let chars = to_chars(path);
            match path_file_name(chars.as_slice()) {
                Some(n) => Ok(string_from_chars(n.as_slice())),
                None => {
                    let mut m = to_chars("Pacman package path has no file name: ");
                    append_str(&mut m, path);
                    Err(string_from_chars(m.as_slice()))
                },
            }
        },
    }
}

/// The package name check: only `codex-desktop` is accepted.
pub open spec fn package_name_check(name: Seq<char>, path: Seq<char>) -> Result<(), Seq<char>> {
    if name == codex_package_name() {
        Ok(())
    } else {
        Err(
            "Refusing to install package "@ + name + " from "@ + path
                + "; expected codex-desktop"@,
        )
    }
}

/// Refuses a package whose metadata names another package.
pub fn ensure_package_name(package_name: &str, path: &str) -> (r: Result<(), String>)
    ensures
        unit_result(r) == package_name_check(package_name@, path@),
{
    let name = to_chars(package_name);
    let expected = to_chars("codex-desktop");
    if crate::text::chars_eq(name.as_slice(), expected.as_slice()) {
        Ok(())
    } else {
        let mut m = to_chars("Refusing to install package ");
        append_str(&mut m, package_name);
        append_str(&mut m, " from ");
        append_str(&mut m, path);
        append_str(&mut m, "; expected codex-desktop");
        Err(string_from_chars(m.as_slice()))
    }
}

/// The version and release a pacman package file name carries:
/// `codex-desktop-<version>-<release>-<arch><suffix>` gives `<version>-<release>`.
pub open spec fn pacman_version_of(path: Seq<char>) -> Result<Seq<char>, Seq<char>> {
    match file_name(path) {
        None => Err("Package path has no file name"@),
        Some(name) => match strip_pacman_suffix(name) {
            None => Err("Not a valid pacman package filename: "@ + name),
            Some(stripped) => if !starts_with(stripped, "codex-desktop-"@) {
                Err("Pacman package filename does not start with codex-desktop-"@)
            } else {
                match rsplit_once(stripped.skip(14), '-') {
                    None => Err("Pacman package filename is missing an architecture suffix"@),
                    Some((version_release, _arch)) => if version_release.len() == 0 {
                        Err("Could not parse package version from "@ + name)
                    } else {
                        Ok(version_release)
                    },
                }
            },
        },
    }
}

/// Reads the package version from a pacman package file name.
pub fn pacman_package_version(path: &str) -> (r: Result<String, String>)
    ensures
        str_result(r) == pacman_version_of(path@),
{
    let chars = to_chars(path);
    let name = match path_file_name(chars.as_slice()) {
        Some(n) => string_from_chars(n.as_slice()),
        None => return Err(String::from_str("Package path has no file name")),
    };
    let stripped = match strip_pacman_package_suffix(name.as_str()) {
        Some(s) => s,
        None => {
            let mut m = to_chars("Not a valid pacman package filename: ");
            append_str(&mut m, name.as_str());
            return Err(string_from_chars(m.as_slice()));
        },
    };
    let stripped_chars = to_chars(stripped.as_str());
    let prefix = to_chars("codex-desktop-");
    proof {
        reveal_strlit("codex-desktop-");
    }
    if !chars_starts_with(stripped_chars.as_slice(), prefix.as_slice()) {
        return Err(String::from_str("Pacman package filename does not start with codex-desktop-"));
    }
    let without_name = slice_range(stripped_chars.as_slice(), 14, stripped_chars.len());
    assert(without_name@ =~= stripped@.skip(14));
    proof {
        lemma_rfind_char(without_name@, '-');
    }
    match rfind(without_name.as_slice(), '-') {
        None => Err(String::from_str("Pacman package filename is missing an architecture suffix")),
        Some(i) => {
            if i == 0 {
                let mut m = to_chars("Could not parse package version from ");
                append_str(&mut m, name.as_str());
                Err(string_from_chars(m.as_slice()))
            } else {
                let version_release = slice_range(without_name.as_slice(), 0, i);
                assert(version_release@ =~= without_name@.take(i as int));
                Ok(string_from_chars(version_release.as_slice()))
            }
        },
    }
}

/// A field that a package tool printed: the tool must have succeeded, printed UTF-8,
/// and printed something besides white space, which is trimmed off.
pub open spec fn metadata_field(
    status_ok: bool,
    stdout: Seq<u8>,
    program: Seq<char>,
    field: Seq<char>,
    path: Seq<char>,
) -> Result<Seq<char>, Seq<char>> {
    if !status_ok {
        Err(program + " could not read the "@ + field + " from "@ + path)
    } else if !valid_utf8(stdout) {
        Err(program + " returned a non-UTF8 "@ + field)
    } else if trim(decode_utf8(stdout)).len() == 0 {
        Err(program + " returned an empty "@ + field + " for "@ + path)
    } else {
        Ok(trim(decode_utf8(stdout)))
    }
}

/// Reads one metadata field from what `program` printed about the package at `path`.
pub fn package_metadata_field(
    status_ok: bool,
    stdout: Vec<u8>,
    program: &str,
    field: &str,
    path: &str,
) -> (r: Result<String, String>)
    ensures
        str_result(r) == metadata_field(status_ok, stdout@, program@, field@, path@),
{
    let ghost bytes = stdout@;
    if !status_ok {
        let mut m = to_chars(program);
        append_str(&mut m, " could not read the ");
        append_str(&mut m, field);
        append_str(&mut m, " from ");
        append_str(&mut m, path);
        return Err(string_from_chars(m.as_slice()));
    }
    let text = match from_utf8(stdout) {
        Some(t) => t,
        None => {
            let mut m = to_chars(program);
            append_str(&mut m, " returned a non-UTF8 ");
            append_str(&mut m, field);
            return Err(string_from_chars(m.as_slice()));
        },
    };
    let chars = to_chars(text.as_str());
    let value = trim_chars(chars.as_slice());
    if value.len() == 0 {
        let mut m = to_chars(program);
        append_str(&mut m, " returned an empty ");
        append_str(&mut m, field);
        append_str(&mut m, " for ");
        append_str(&mut m, path);
        return Err(string_from_chars(m.as_slice()));
    }
    Ok(string_from_chars(value.as_slice()))
}

/// Which metadata query confirms that a package is the Codex package.
#[derive(Debug, Clone, Copy, PartialEq, Eq, Structural)]
pub enum PackageQuery {
    /// `dpkg-deb -f -- <path> Package`
    DebName,
    /// `rpm -qp --queryformat %{NAME} -- <path>`
    RpmName,
    /// `pacman -Qqp -- <path>`
    PacmanName,
    /// The Gentoo artifact's own metadata files.
    GentooMetadata,
}

/// What the identity check of a package asks for, or why its file name already
/// rules it out.
pub open spec fn codex_package_query(path: Seq<char>) -> Result<PackageQuery, Seq<char>> {
    match kind_of_path(path) {
        PackageKind::Deb => Ok(PackageQuery::DebName),
        PackageKind::Rpm => Ok(PackageQuery::RpmName),
        PackageKind::Pacman => match pacman_version_of(path) {
            Ok(_) => Ok(PackageQuery::PacmanName),
            Err(e) => Err(e),
        },
        PackageKind::Gentoo => Ok(PackageQuery::GentooMetadata),
    }
}

/// Starts the check that the package at `path` is the Codex package: a pacman
/// package must carry a Codex package file name; every package is then confirmed by
/// the metadata query this returns.
pub fn ensure_codex_package(path: &str) -> (r: Result<PackageQuery, String>)
    ensures
        match (r, codex_package_query(path@)) {
            (Ok(q), Ok(p)) => q == p,
            (Err(e), Err(m)) => e@ == m,
            _ => false,
        },
{
    match PackageKind::from_path(path) {
        PackageKind::Deb => Ok(PackageQuery::DebName),
        PackageKind::Rpm => Ok(PackageQuery::RpmName),
        PackageKind::Pacman => match pacman_package_version(path) {
            Ok(_) => Ok(PackageQuery::PacmanName),
            Err(e) => Err(e),
        },
        PackageKind::Gentoo => Ok(PackageQuery::GentooMetadata),
    }
}

/// The error for a package path that is not a regular file.
pub fn not_a_file_error(path: &str) -> (r: String)
    ensures
        r@ == "Package path is not a file: "@ + path@,
{
    let mut m = to_chars("Package path is not a file: ");
    append_str(&mut m, path);
    string_from_chars(m.as_slice())
}

/// When a package is looked at while it is being staged.
#[derive(Debug, Clone, Copy, PartialEq, Eq, Structural)]
pub enum StagingPhase {
    /// After the requested path was resolved to the file it names.
    Resolving,
    /// After the file was copied into the private staging area.
    Stabilizing,
}

pub open spec fn phase_word(phase: StagingPhase) -> Seq<char> {
    match phase {
        StagingPhase::Resolving => "resolving "@,
        StagingPhase::Stabilizing => "stabilizing "@,
    }
}

/// The package format must stay what the requested path named.
pub fn check_kind_unchanged(
    requested: PackageKind,
    actual: PackageKind,
    phase: StagingPhase,
    path: &str,
) -> (r: Result<(), String>)
    ensures
        unit_result(r) == if requested == actual {
            Ok(())
        } else {
            Err("Package format changed while "@ + phase_word(phase) + path@)
        },
{
    if requested == actual {
        Ok(())
    } else {
        let mut m = to_chars("Package format changed while ");
        match phase {
            StagingPhase::Resolving => append_str(&mut m, "resolving "),
            StagingPhase::Stabilizing => append_str(&mut m, "stabilizing "),
        }
        append_str(&mut m, path);
        Err(string_from_chars(m.as_slice()))
    }
}

/// Whether an installed version is known, so that an upgrade has to be checked.
pub fn installed_version_known(installed: &str) -> (r: bool)
    ensures
        r == (installed@ != crate::installed::unknown()),
{
    !crate::pending::str_eq(installed, "unknown")
}

/// Refuses to install `candidate` unless it is newer than `installed`; `newer` is
/// the package manager's judgement.
pub open spec fn upgrade_check(candidate: Seq<char>, installed: Seq<char>, newer: bool, gentoo: bool) -> Result<(), Seq<char>> {
    if newer {
        Ok(())
    } else {
        Err(
            (if gentoo {
                "Refusing to install non-newer Gentoo package version "@
            } else {
                "Refusing to install non-newer package version "@
            }) + candidate + " over installed version "@ + installed,
        )
    }
}

/// The upgrade check, given the package manager's judgement of the versions.
pub fn refuse_non_newer(candidate: &str, installed: &str, newer: bool, gentoo: bool) -> (r: Result<(), String>)
    ensures
        unit_result(r) == upgrade_check(candidate@, installed@, newer, gentoo),
{
    if newer {
        Ok(())
    } else {
        let mut m = if gentoo {
            to_chars("Refusing to install non-newer Gentoo package version ")
        } else {
            to_chars("Refusing to install non-newer package version ")
        };
        append_str(&mut m, candidate);
        append_str(&mut m, " over installed version ");
        append_str(&mut m, installed);
        Err(string_from_chars(m.as_slice()))
    }
}

/// What `vercmp` printed: a number that is positive when the first version is
/// newer.
pub open spec fn vercmp_result(stdout: Seq<u8>) -> Result<bool, Seq<char>> {
    if !valid_utf8(stdout) {
        Err("vercmp returned a non-UTF8 response"@)
    } else {
        match crate::text::parse_i32(trim(decode_utf8(stdout))) {
            None => Err("vercmp returned an invalid comparison value"@),
            Some(n) => Ok(n > 0),
        }
    }
}

/// Reads `vercmp`'s verdict on whether the candidate is newer.
pub fn vercmp_says_newer(stdout: Vec<u8>) -> (r: Result<bool, String>)
    ensures
        match (r, vercmp_result(stdout@)) {
            (Ok(a), Ok(b)) => a == b,
            (Err(e), Err(m)) => e@ == m,
            _ => false,
        },
{
    let text = match from_utf8(stdout) {
        Some(t) => t,
        None => return Err(String::from_str("vercmp returned a non-UTF8 response")),
    };
    let c = to_chars(text.as_str());
    let t = trim_chars(c.as_slice());
    match crate::text::parse_i32_chars(t.as_slice()) {
        None => Err(String::from_str("vercmp returned an invalid comparison value")),
        Some(n) => Ok(n > 0),
    }
}

} // verus!
