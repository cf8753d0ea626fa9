//! Installing a rebuilt package: the package is checked, staged as a private copy,
//! checked again, compared with the installed version, and handed to the package
//! manager. The updater's main loop does the outside work (files, processes); the
//! steps here decide, from each result, what is done next.
use vstd::prelude::*;
use crate::commands::{
    CommandLine, CommandView, dpkg_install_command, opt_text, install_command_in_parent, install_in_parent,
    pacman_install_command, program_name, rpm_install_command, zypper_install_command,
};
use crate::gentoo::{
    artifact_listing, artifact_metadata_value, check_gentoo_category, check_gentoo_distfile,
    check_gentoo_package_name, check_gentoo_version, expected_distfile, find_entry,
    gentoo_artifact_entry, gentoo_category, gentoo_package_name, listing_text, metadata_value,
    missing_entry_error,
};
use crate::installed::unknown;
use crate::package::{PackageKind, kind_of_path};
use crate::staging::{
    PackageQuery, StagingPhase, check_kind_unchanged, phase_word, codex_package_query, ensure_codex_package,
    ensure_package_name, metadata_field, package_metadata_field, package_name_check,
    pacman_package_version, pacman_version_of, refuse_non_newer, stable_file_name, stable_name,
    upgrade_check, vercmp_result, vercmp_says_newer, not_a_file_error,
};
use crate::text::{append_str, lines, str_result, string_from_chars, to_chars, trim, unit_result};
use crate::version::{generated_newer, generated_order, generated_version};
use std::cmp::Ordering;

verus! {

/// Which copy of the package a check reads.
#[derive(Debug, Clone, Copy, PartialEq, Eq, Structural)]
pub enum Subject {
    /// The file the requested path resolves to.
    Source,
    /// The private staged copy, before it is installed.
    Staged,
    /// The staged copy, read for the version to compare with the installed one.
    Candidate,
}

/// A metadata file of a Gentoo artifact.
#[derive(Debug, Clone, Copy, PartialEq, Eq, Structural)]
pub enum GentooField {
    PackageName,
    Category,
    PackageVersion,
    Distfile,
}

pub open spec fn field_name(f: GentooField) -> Seq<char> {
    match f {
        GentooField::PackageName => "package-name"@,
        GentooField::Category => "category"@,
        GentooField::PackageVersion => "package-version"@,
        GentooField::Distfile => "distfile"@,
    }
}

/// A package tool the install may run.
#[derive(Debug, Clone, Copy, PartialEq, Eq, Structural)]
pub enum Tool {
    Apt,
    Dpkg,
    Dnf,
    Zypper,
    Rpm,
    Pacman,
}

/// Where an install stands: which answer it waits for.
#[derive(Debug, Clone, Copy, PartialEq, Eq, Structural)]
pub enum Stage {
    Begin,
    AwaitFile,
    AwaitResolve,
    AwaitName(Subject),
    AwaitListing(Subject, GentooField),
    AwaitEntry(Subject, GentooField),
    AwaitDir,
    AwaitCopy,
    AwaitLockDown,
    AwaitInstalled,
    AwaitCandidate,
    AwaitDebCompare,
    AwaitVercmp,
    AwaitProgram(Tool),
    AwaitRun,
    AwaitMerge,
    Finished,
}

/// Why an install failed: the message, and the context it was reported in.
#[derive(Debug)]
pub struct InstallError {
    pub context: Option<String>,
    pub message: String,
}

/// The outside work an install asks for next, or its end.
#[derive(Debug)]
pub enum InstallRequest {
    /// Whether `path` is a regular file: answer `Flag`.
    IsFile { path: String },
    /// The canonical form of `path`, symbolic links resolved: answer `Text`.
    Canonicalize { path: String },
    /// Run the tool for `query` on the package at `path`: answer `Output`.
    ReadPackageName { query: PackageQuery, path: String },
    /// List the Gentoo artifact at `path` (`tar -I zstd -tf`): answer `Output`.
    ListGentooArtifact { path: String },
    /// Print `entry` of the Gentoo artifact at `path` (`tar -I zstd -xOf`): answer `Output`.
    ReadGentooEntry { path: String, entry: String },
    /// Create a private staging directory: answer `Text` with its path.
    CreateStagingDir,
    /// Copy the package: answer `Done`.
    CopyPackage { from: String, to: String },
    /// Make the staged copy readable by its owner only: answer `Done`.
    LockDownPackage { path: String },
    /// The installed version of the package of `kind`, `unknown` when none: answer `Text`.
    InstalledVersion { kind: PackageKind },
    /// Read the version of the package at `path` (`dpkg-deb -f -- <path> Version`
    /// for Debian, `rpm -qp --queryformat %{VERSION}-%{RELEASE} -- <path>` for RPM):
    /// answer `Output`.
    ReadPackageVersion { kind: PackageKind, path: String },
    /// `dpkg --compare-versions <candidate> gt <installed>`: answer `Verdict`.
    CompareDebVersions { candidate: String, installed: String },
    /// `vercmp <candidate> <installed>`; a failed run is an error: answer `Output`.
    CompareWithVercmp { candidate: String, installed: String },
    /// Where `tool` is, and whether it exists: answer `Program`.
    FindProgram { tool: Tool },
    /// Run the install command and wait for it: answer `Done`.
    Run { command: CommandLine },
    /// Unpack the Gentoo artifact at `path` and merge it with Portage: answer `Done`.
    MergeGentoo { path: String },
    /// The install is over; `remove_dir` is the staging directory to delete.
    Finished { result: Result<(), InstallError>, remove_dir: Option<String> },
}

/// The result of the outside work an install asked for.
pub enum InstallAnswer {
    /// The first step.
    Start,
    Flag(bool),
    Text(Result<String, String>),
    /// Whether the program succeeded, and what it printed; or why it could not run.
    Output(Result<(bool, Vec<u8>), String>),
    Verdict(Result<bool, String>),
    Program { exists: bool, path: String },
    Done(Result<(), String>),
}

pub enum AnswerView {
    Start,
    Flag(bool),
    Text(Result<Seq<char>, Seq<char>>),
    Output(Result<(bool, Seq<u8>), Seq<char>>),
    Verdict(Result<bool, Seq<char>>),
    Program { exists: bool, path: Seq<char> },
    Done(Result<(), Seq<char>>),
}

impl View for InstallAnswer {
    type V = AnswerView;

    open spec fn view(&self) -> AnswerView {
        match self {
            InstallAnswer::Start => AnswerView::Start,
            InstallAnswer::Flag(b) => AnswerView::Flag(*b),
            InstallAnswer::Text(t) => AnswerView::Text(str_result(*t)),
            InstallAnswer::Output(o) => AnswerView::Output(
                match o {
                    Ok((ok, out)) => Ok((*ok, out@)),
                    Err(e) => Err(e@),
                },
            ),
            InstallAnswer::Verdict(v) => AnswerView::Verdict(
                match v {
                    Ok(b) => Ok(*b),
                    Err(e) => Err(e@),
                },
            ),
            InstallAnswer::Program { exists, path } => AnswerView::Program {
                exists: *exists,
                path: path@,
            },
            InstallAnswer::Done(d) => AnswerView::Done(unit_result(*d)),
        }
    }
}

pub enum RequestView {
    IsFile { path: Seq<char> },
    Canonicalize { path: Seq<char> },
    ReadPackageName { query: PackageQuery, path: Seq<char> },
    ListGentooArtifact { path: Seq<char> },
    ReadGentooEntry { path: Seq<char>, entry: Seq<char> },
    CreateStagingDir,
    CopyPackage { from: Seq<char>, to: Seq<char> },
    LockDownPackage { path: Seq<char> },
    InstalledVersion { kind: PackageKind },
    ReadPackageVersion { kind: PackageKind, path: Seq<char> },
    CompareDebVersions { candidate: Seq<char>, installed: Seq<char> },
    CompareWithVercmp { candidate: Seq<char>, installed: Seq<char> },
    FindProgram { tool: Tool },
    Run { command: CommandView },
    MergeGentoo { path: Seq<char> },
    Finished {
        result: Result<(), (Option<Seq<char>>, Seq<char>)>,
        remove_dir: Option<Seq<char>>,
    },
}

impl View for InstallRequest {
    type V = RequestView;

    open spec fn view(&self) -> RequestView {
        match self {
            InstallRequest::IsFile { path } => RequestView::IsFile { path: path@ },
            InstallRequest::Canonicalize { path } => RequestView::Canonicalize { path: path@ },
            InstallRequest::ReadPackageName { query, path } => RequestView::ReadPackageName {
                query: *query,
                path: path@,
            },
            InstallRequest::ListGentooArtifact { path } => RequestView::ListGentooArtifact {
                path: path@,
            },
            InstallRequest::ReadGentooEntry { path, entry } => RequestView::ReadGentooEntry {
                path: path@,
                entry: entry@,
            },
            InstallRequest::CreateStagingDir => RequestView::CreateStagingDir,
            InstallRequest::CopyPackage { from, to } => RequestView::CopyPackage {
                from: from@,
                to: to@,
            },
            InstallRequest::LockDownPackage { path } => RequestView::LockDownPackage { path: path@ },
            InstallRequest::InstalledVersion { kind } => RequestView::InstalledVersion { kind: *kind },
            InstallRequest::ReadPackageVersion { kind, path } => RequestView::ReadPackageVersion {
                kind: *kind,
                path: path@,
            },
            InstallRequest::CompareDebVersions { candidate, installed } =>
                RequestView::CompareDebVersions { candidate: candidate@, installed: installed@ },
            InstallRequest::CompareWithVercmp { candidate, installed } =>
                RequestView::CompareWithVercmp { candidate: candidate@, installed: installed@ },
            InstallRequest::FindProgram { tool } => RequestView::FindProgram { tool: *tool },
            InstallRequest::Run { command } => RequestView::Run { command: command@ },
            InstallRequest::MergeGentoo { path } => RequestView::MergeGentoo { path: path@ },
            InstallRequest::Finished { result, remove_dir } => RequestView::Finished {
                result: match result {
                    Ok(()) => Ok(()),
                    Err(e) => Err((opt_text(e.context), e.message@)),
                },
                remove_dir: opt_text(*remove_dir),
            },
        }
    }
}

/// An install in progress.
pub struct Installer {
    kind: PackageKind,
    path: String,
    source: String,
    dir: String,
    stable: String,
    entry: String,
    gentoo_version: String,
    installed: String,
    candidate: String,
    failure: String,
    staged: bool,
    stage: Stage,
}

/// What an install knows: the installer's package kind, the requested path, the
/// resolved source, the staging directory and staged copy, the Gentoo entry being
/// read and the version the artifact named, the installed and candidate versions,
/// the context a failed install command is reported in, whether the package is
/// staged, and the stage.
pub struct InstallState {
    pub kind: PackageKind,
    pub path: Seq<char>,
    pub source: Seq<char>,
    pub dir: Seq<char>,
    pub stable: Seq<char>,
    pub entry: Seq<char>,
    pub gentoo_version: Seq<char>,
    pub installed: Seq<char>,
    pub candidate: Seq<char>,
    pub failure: Seq<char>,
    pub staged: bool,
    pub stage: Stage,
}

impl View for Installer {
    type V = InstallState;

    closed spec fn view(&self) -> InstallState {
        InstallState {
            kind: self.kind,
            path: self.path@,
            source: self.source@,
            dir: self.dir@,
            stable: self.stable@,
            entry: self.entry@,
            gentoo_version: self.gentoo_version@,
            installed: self.installed@,
            candidate: self.candidate@,
            failure: self.failure@,
            staged: self.staged,
            stage: self.stage,
        }
    }
}

// ----- the steps, as functions of the state and the answer ---------------------------

pub open spec fn kind_word(kind: PackageKind) -> Seq<char> {
    match kind {
        PackageKind::Deb => "Debian"@,
        PackageKind::Rpm => "RPM"@,
        PackageKind::Pacman => "pacman"@,
        PackageKind::Gentoo => "Gentoo"@,
    }
}

/// The context of a failure while the package is checked and staged.
pub open spec fn stabilize_context(kind: PackageKind, path: Seq<char>) -> Seq<char> {
    "Failed to stabilize "@ + kind_word(kind) + " package "@ + path
}

pub open spec fn finish(s: InstallState, result: Result<(), (Option<Seq<char>>, Seq<char>)>) -> (
    InstallState,
    RequestView,
) {
    (
        InstallState { stage: Stage::Finished, ..s },
        RequestView::Finished {
            result,
            remove_dir: if s.staged {
                Some(s.dir)
            } else {
                None
            },
        },
    )
}

/// A failure reported as it is.
pub open spec fn fail(s: InstallState, e: Seq<char>) -> (InstallState, RequestView) {
    finish(s, Err((None, e)))
}

/// A failure while the package is checked and staged.
pub open spec fn fail_staging(s: InstallState, e: Seq<char>) -> (InstallState, RequestView) {
    finish(s, Err((Some(stabilize_context(s.kind, s.path)), e)))
}

/// A failure while reading `subject`.
pub open spec fn fail_on(s: InstallState, subject: Subject, e: Seq<char>) -> (InstallState, RequestView) {
    if subject == Subject::Candidate {
        fail(s, e)
    } else {
        fail_staging(s, e)
    }
}

/// The path of the copy a check reads.
pub open spec fn subject_path(s: InstallState, subject: Subject) -> Seq<char> {
    if subject == Subject::Source {
        s.source
    } else {
        s.stable
    }
}

pub open spec fn unexpected() -> Seq<char> {
    "the install was given a result it did not ask for"@
}

/// Starts confirming that `subject` is the Codex package.
pub open spec fn begin_identity(s: InstallState, subject: Subject) -> (InstallState, RequestView) {
    let p = subject_path(s, subject);
    match codex_package_query(p) {
        Err(e) => fail_staging(s, e),
        Ok(PackageQuery::GentooMetadata) => (
            InstallState { stage: Stage::AwaitListing(subject, GentooField::PackageName), ..s },
            RequestView::ListGentooArtifact { path: p },
        ),
        Ok(q) => (
            InstallState { stage: Stage::AwaitName(subject), ..s },
            RequestView::ReadPackageName { query: q, path: p },
        ),
    }
}

/// `subject` was confirmed to be the Codex package.
pub open spec fn identity_passed(s: InstallState, subject: Subject) -> (InstallState, RequestView) {
    if subject == Subject::Source {
        (InstallState { stage: Stage::AwaitDir, ..s }, RequestView::CreateStagingDir)
    } else {
        (
            InstallState { stage: Stage::AwaitInstalled, staged: true, ..s },
            RequestView::InstalledVersion { kind: s.kind },
        )
    }
}

/// The tool whose output names a package of `kind`.
pub open spec fn name_tool(kind: PackageKind) -> Seq<char> {
    match kind {
        PackageKind::Rpm => "rpm"@,
        PackageKind::Pacman => "pacman"@,
        _ => "dpkg-deb"@,
    }
}

/// Hands the staged copy to the package manager.
pub open spec fn begin_install(s: InstallState) -> (InstallState, RequestView) {
    match s.kind {
        PackageKind::Deb => (
            InstallState { stage: Stage::AwaitProgram(Tool::Apt), ..s },
            RequestView::FindProgram { tool: Tool::Apt },
        ),
        PackageKind::Rpm => (
            InstallState { stage: Stage::AwaitProgram(Tool::Dnf), ..s },
            RequestView::FindProgram { tool: Tool::Dnf },
        ),
        PackageKind::Pacman => (
            InstallState { stage: Stage::AwaitProgram(Tool::Pacman), ..s },
            RequestView::FindProgram { tool: Tool::Pacman },
        ),
        PackageKind::Gentoo => (
            InstallState { stage: Stage::AwaitMerge, ..s },
            RequestView::MergeGentoo { path: s.stable },
        ),
    }
}

/// Installs when the candidate is newer, and refuses otherwise.
pub open spec fn after_upgrade_check(s: InstallState, newer: bool, gentoo: bool) -> (
    InstallState,
    RequestView,
) {
    match upgrade_check(s.candidate, s.installed, newer, gentoo) {
        Err(e) => fail(s, e),
        Ok(()) => begin_install(s),
    }
}

/// The next Gentoo metadata file to read after `f`.
pub open spec fn next_field(f: GentooField) -> GentooField {
    match f {
        GentooField::PackageName => GentooField::Category,
        GentooField::Category => GentooField::PackageVersion,
        _ => GentooField::Distfile,
    }
}

/// What a Gentoo metadata value decides.
pub open spec fn gentoo_value(s: InstallState, subject: Subject, f: GentooField, v: Seq<char>) -> (
    InstallState,
    RequestView,
) {
    let p = subject_path(s, subject);
    if subject == Subject::Candidate {
        after_upgrade_check(InstallState { candidate: v, ..s }, generated_newer(v, s.installed), true)
    } else {
        let check: Result<(), Seq<char>> = match f {
            GentooField::PackageName => if v == gentoo_package_name() {
                Ok(())
            } else {
                Err(
                    "Refusing to install Gentoo package "@ + v + " from "@ + p
                        + "; expected codex-desktop-bin"@,
                )
            },
            GentooField::Category => if v == gentoo_category() {
                Ok(())
            } else {
                Err(
                    "Refusing to install Gentoo category "@ + v + " from "@ + p
                        + "; expected app-editors"@,
                )
            },
            GentooField::PackageVersion => if generated_version(v) is Some {
                Ok(())
            } else {
                Err(
                    "Gentoo package version "@ + v + " from "@ + p
                        + " is not a generated Codex package version"@,
                )
            },
            GentooField::Distfile => if v == expected_distfile(s.gentoo_version) {
                Ok(())
            } else {
                Err(
                    "Gentoo distfile "@ + v + " from "@ + p + " does not match package version "@
                        + s.gentoo_version,
                )
            },
        };
        match check {
            Err(e) => fail_staging(s, e),
            Ok(()) => if f == GentooField::Distfile {
                identity_passed(s, subject)
            } else {
                let s2 = if f == GentooField::PackageVersion {
                    InstallState { gentoo_version: v, ..s }
                } else {
                    s
                };
                (
                    InstallState { stage: Stage::AwaitListing(subject, next_field(f)), ..s2 },
                    RequestView::ListGentooArtifact { path: p },
                )
            },
        }
    }
}

/// The install command for the tool found, or the next tool to look for.
pub open spec fn program_found(s: InstallState, tool: Tool, exists: bool, program: Seq<char>) -> (
    InstallState,
    RequestView,
) {
    let run = |failure: Seq<char>, command: CommandView|
        (InstallState { stage: Stage::AwaitRun, failure, ..s }, RequestView::Run { command });
    match tool {
        Tool::Apt => if exists {
            match install_in_parent(program, program_name(program), seq!["install"@, "-y"@], s.stable) {
                Err(e) => fail(s, e),
                Ok(c) => run("apt install failed"@, c),
            }
        } else {
            (
                InstallState { stage: Stage::AwaitProgram(Tool::Dpkg), ..s },
                RequestView::FindProgram { tool: Tool::Dpkg },
            )
        },
        Tool::Dpkg => run(
            "dpkg -i failed"@,
            CommandView { program, args: seq!["-i"@, "--"@, s.stable], current_dir: None },
        ),
        Tool::Dnf => if exists {
            match install_in_parent(program, program_name(program), seq!["install"@, "-y"@], s.stable) {
                Err(e) => fail(s, e),
                Ok(c) => run("dnf install failed"@, c),
            }
        } else {
            (
                InstallState { stage: Stage::AwaitProgram(Tool::Zypper), ..s },
                RequestView::FindProgram { tool: Tool::Zypper },
            )
        },
        Tool::Zypper => if exists {
            match install_in_parent(
                program,
                "zypper"@,
                seq!["--non-interactive"@, "--no-gpg-checks"@, "install"@, "-y"@],
                s.stable,
            ) {
                Err(e) => fail(s, e),
                Ok(c) => run("zypper install failed"@, c),
            }
        } else {
            (
                InstallState { stage: Stage::AwaitProgram(Tool::Rpm), ..s },
                RequestView::FindProgram { tool: Tool::Rpm },
            )
        },
        Tool::Rpm => run(
            "rpm -Uvh failed"@,
            CommandView { program, args: seq!["-Uvh"@, "--"@, s.stable], current_dir: None },
        ),
        Tool::Pacman => run(
            "pacman -U failed"@,
            CommandView {
                program,
                args: seq!["-U"@, "--noconfirm"@, "--"@, s.stable],
                current_dir: None,
            },
        ),
    }
}

/// One step of an install: the state after `a`, and the next request.
pub open spec fn install_next(s: InstallState, a: AnswerView) -> (InstallState, RequestView) {
    match s.stage {
        Stage::Begin => (
            InstallState { stage: Stage::AwaitFile, ..s },
            RequestView::IsFile { path: s.path },
        ),
        Stage::AwaitFile => match a {
            AnswerView::Flag(true) => (
                InstallState { stage: Stage::AwaitResolve, ..s },
                RequestView::Canonicalize { path: s.path },
            ),
            AnswerView::Flag(false) => fail_staging(s, "Package path is not a file: "@ + s.path),
            _ => fail(s, unexpected()),
        },
        Stage::AwaitResolve => match a {
            AnswerView::Text(Err(e)) => fail_staging(s, e),
            AnswerView::Text(Ok(src)) => {
                let s2 = InstallState { source: src, ..s };
                if kind_of_path(s.path) != kind_of_path(src) {
                    fail_staging(
                        s2,
                        "Package format changed while "@ + phase_word(StagingPhase::Resolving) + s.path,
                    )
                } else {
                    begin_identity(s2, Subject::Source)
                }
            },
            _ => fail(s, unexpected()),
        },
        Stage::AwaitName(subject) => match a {
            AnswerView::Output(Err(e)) => fail_staging(s, e),
            AnswerView::Output(Ok((ok, out))) => {
                let p = subject_path(s, subject);
                match metadata_field(ok, out, name_tool(kind_of_path(p)), "package name"@, p) {
                    Err(e) => fail_staging(s, e),
                    Ok(n) => match package_name_check(n, p) {
                        Err(e) => fail_staging(s, e),
                        Ok(()) => identity_passed(s, subject),
                    },
                }
            },
            _ => fail(s, unexpected()),
        },
        Stage::AwaitListing(subject, f) => match a {
            AnswerView::Output(Err(e)) => fail_on(s, subject, e),
            AnswerView::Output(Ok((ok, out))) => {
                let p = subject_path(s, subject);
                let suffix = "metadata/"@ + field_name(f);
                match listing_text(ok, out, p) {
                    Err(e) => fail_on(s, subject, e),
                    Ok(t) => match find_entry(lines(t), suffix) {
                        None => fail_on(s, subject, "Gentoo artifact "@ + p + " is missing "@ + suffix),
                        Some(en) => (
                            InstallState { stage: Stage::AwaitEntry(subject, f), entry: en, ..s },
                            RequestView::ReadGentooEntry { path: p, entry: en },
                        ),
                    },
                }
            },
            _ => fail(s, unexpected()),
        },
        Stage::AwaitEntry(subject, f) => match a {
            AnswerView::Output(Err(e)) => fail_on(s, subject, e),
            AnswerView::Output(Ok((ok, out))) => {
                let p = subject_path(s, subject);
                match metadata_value(ok, out, s.entry, field_name(f), p) {
                    Err(e) => fail_on(s, subject, e),
                    Ok(v) => gentoo_value(s, subject, f, v),
                }
            },
            _ => fail(s, unexpected()),
        },
        Stage::AwaitDir => match a {
            AnswerView::Text(Err(e)) => fail_staging(s, e),
            AnswerView::Text(Ok(dir)) => match stable_name(kind_of_path(s.source), s.source) {
                Err(e) => fail_staging(InstallState { dir, ..s }, e),
                Ok(name) => {
                    let stable = crate::assets::join_path(dir, name);
                    (
                        InstallState { stage: Stage::AwaitCopy, dir, stable, ..s },
                        RequestView::CopyPackage { from: s.source, to: stable },
                    )
                },
            },
            _ => fail(s, unexpected()),
        },
        Stage::AwaitCopy => match a {
            AnswerView::Done(Err(e)) => fail_staging(s, e),
            AnswerView::Done(Ok(())) => (
                InstallState { stage: Stage::AwaitLockDown, ..s },
                RequestView::LockDownPackage { path: s.stable },
            ),
            _ => fail(s, unexpected()),
        },
        Stage::AwaitLockDown => match a {
            AnswerView::Done(Err(e)) => fail_staging(s, e),
            AnswerView::Done(Ok(())) => if kind_of_path(s.stable) != kind_of_path(s.source) {
                fail_staging(
                    s,
                    "Package format changed while "@ + phase_word(StagingPhase::Stabilizing) + s.path,
                )
            } else {
                begin_identity(s, Subject::Staged)
            },
            _ => fail(s, unexpected()),
        },
        Stage::AwaitInstalled => match a {
            AnswerView::Text(Err(e)) => fail(s, e),
            AnswerView::Text(Ok(v)) => {
                let s2 = InstallState { installed: v, ..s };
                if v == unknown() {
                    begin_install(s2)
                } else {
                    match s.kind {
                        PackageKind::Deb | PackageKind::Rpm => (
                            InstallState { stage: Stage::AwaitCandidate, ..s2 },
                            RequestView::ReadPackageVersion { kind: s.kind, path: s.stable },
                        ),
                        PackageKind::Pacman => match pacman_version_of(s.stable) {
                            Err(e) => fail(s2, e),
                            Ok(c) => (
                                InstallState { stage: Stage::AwaitVercmp, candidate: c, ..s2 },
                                RequestView::CompareWithVercmp { candidate: c, installed: v },
                            ),
                        },
                        PackageKind::Gentoo => (
                            InstallState {
                                stage: Stage::AwaitListing(Subject::Candidate, GentooField::PackageVersion),
                                ..s2
                            },
                            RequestView::ListGentooArtifact { path: s.stable },
                        ),
                    }
                }
            },
            _ => fail(s, unexpected()),
        },
        Stage::AwaitCandidate => match a {
            AnswerView::Output(Err(e)) => fail(s, e),
            AnswerView::Output(Ok((ok, out))) => match metadata_field(
                ok,
                out,
                name_tool(s.kind),
                "package version"@,
                s.stable,
            ) {
                Err(e) => fail(s, e),
                Ok(c) => {
                    let s2 = InstallState { candidate: c, ..s };
                    if s.kind == PackageKind::Deb {
                        (
                            InstallState { stage: Stage::AwaitDebCompare, ..s2 },
                            RequestView::CompareDebVersions { candidate: c, installed: s.installed },
                        )
                    } else {
                        after_upgrade_check(s2, generated_newer(c, s.installed), false)
                    }
                },
            },
            _ => fail(s, unexpected()),
        },
        Stage::AwaitDebCompare => match a {
            AnswerView::Verdict(Err(e)) => fail(s, e),
            AnswerView::Verdict(Ok(newer)) => after_upgrade_check(s, newer, false),
            _ => fail(s, unexpected()),
        },
        Stage::AwaitVercmp => match a {
            AnswerView::Output(Err(e)) => fail(s, e),
            AnswerView::Output(Ok((_ok, out))) => match vercmp_result(out) {
                Err(e) => fail(s, e),
                Ok(newer) => after_upgrade_check(s, newer, false),
            },
            _ => fail(s, unexpected()),
        },
        Stage::AwaitProgram(tool) => match a {
            AnswerView::Program { exists, path } => program_found(s, tool, exists, path),
            _ => fail(s, unexpected()),
        },
        Stage::AwaitRun => match a {
            AnswerView::Done(Ok(())) => finish(s, Ok(())),
            AnswerView::Done(Err(e)) => finish(s, Err((Some(s.failure), e))),
            _ => fail(s, unexpected()),
        },
        Stage::AwaitMerge => match a {
            AnswerView::Done(Ok(())) => finish(s, Ok(())),
            AnswerView::Done(Err(e)) => finish(s, Err((Some("Gentoo package install failed"@), e))),
            _ => fail(s, unexpected()),
        },
        Stage::Finished => fail(s, unexpected()),
    }
}

// ----- laws -------------------------------------------------------------------------

/// The package is staged exactly from the moment the staged copy was confirmed.
pub open spec fn install_inv(s: InstallState) -> bool {
    match s.stage {
        Stage::AwaitInstalled | Stage::AwaitCandidate | Stage::AwaitDebCompare
        | Stage::AwaitVercmp | Stage::AwaitProgram(_) | Stage::AwaitRun | Stage::AwaitMerge => s.staged,
        Stage::AwaitListing(subject, _) | Stage::AwaitEntry(subject, _) => s.staged == (subject
            == Subject::Candidate),
        Stage::Finished => true,
        _ => !s.staged,
    }
}

/// Whether a command installs the file at `path`: its last argument is the path,
/// or `./<file name>` when it runs in the file's directory.
pub open spec fn installs_file(c: CommandView, path: Seq<char>) -> bool {
    &&& c.args.len() > 0
    &&& c.args.last() == path || (c.current_dir == crate::commands::path_parent(path) && match crate::path::file_name(path) {
        Some(n) => c.args.last() == "./"@ + n,
        None => false,
    })
}

/// A new install holds the invariant, and every step keeps it.
pub proof fn law_install_invariant(kind: PackageKind, path: Seq<char>, s: InstallState, a: AnswerView)
    ensures
        install_inv(install_start(kind, path)),
        install_inv(s) ==> install_inv(install_next(s, a).0),
{
}

/// The package manager is only ever handed the private staged copy, and only once
/// that copy was confirmed to be the Codex package.
pub proof fn law_install_command_takes_the_staged_copy(s: InstallState, a: AnswerView)
    requires
        install_inv(s),
    ensures
        ({
            let (s2, r) = install_next(s, a);
            &&& r matches RequestView::Run { command } ==> s2.staged && installs_file(command, s.stable)
            &&& r matches RequestView::MergeGentoo { path } ==> s2.staged && path == s.stable
        }),
{
}

/// An install reports success only when the package manager's run succeeded, and
/// then the staging directory is removed.
pub proof fn law_install_succeeds_only_through_the_package_manager(s: InstallState, a: AnswerView)
    requires
        install_inv(s),
    ensures
        match install_next(s, a).1 {
            RequestView::Finished { result: Ok(()), remove_dir } => (s.stage == Stage::AwaitRun
                || s.stage == Stage::AwaitMerge) && (a matches AnswerView::Done(Ok(())))
                && remove_dir == Some(s.dir),
            _ => true,
        },
{
}

/// A package whose metadata names another package is refused, in the staging
/// context of the install.
pub proof fn law_foreign_package_is_refused(s: InstallState, subject: Subject, out: Seq<u8>)
    requires
        s.stage == Stage::AwaitName(subject),
        metadata_field(true, out, name_tool(kind_of_path(subject_path(s, subject))), "package name"@, subject_path(s, subject))
            matches Ok(n) && n != crate::staging::codex_package_name(),
    ensures
        install_next(s, AnswerView::Output(Ok((true, out)))).1 matches RequestView::Finished {
            result: Err((Some(ctx), msg)),
            ..
        } && ctx == stabilize_context(s.kind, s.path) && msg == "Refusing to install package "@
            + trim(vstd::utf8::decode_utf8(out)) + " from "@ + subject_path(s, subject)
            + "; expected codex-desktop"@,
{
}

/// A candidate that is not newer than the installed version is refused, and nothing
/// is installed.
pub proof fn law_non_newer_package_is_refused(s: InstallState, a: AnswerView)
    requires
        s.stage == Stage::AwaitDebCompare,
        a == AnswerView::Verdict(Ok(false)),
    ensures
        install_next(s, a).1 == (RequestView::Finished {
            result: Err(
                (None, "Refusing to install non-newer package version "@ + s.candidate
                    + " over installed version "@ + s.installed),
            ),
            remove_dir: if s.staged {
                Some(s.dir)
            } else {
                None
            },
        }),
{
}

/// An RPM whose version was read from the staged copy goes on to the package
/// manager (dnf is looked for first) exactly when it is a newer generated version
/// than the installed one; otherwise the install is refused as non-newer and the
/// staging directory is removed.
pub proof fn law_rpm_installs_only_newer_versions(s: InstallState, out: Seq<u8>, candidate: Seq<char>)
    requires
        install_inv(s),
        s.stage == Stage::AwaitCandidate,
        s.kind == PackageKind::Rpm,
        metadata_field(true, out, "rpm"@, "package version"@, s.stable) == Ok::<Seq<char>, Seq<char>>(candidate),
    ensures
        ({
            let r = install_next(s, AnswerView::Output(Ok((true, out)))).1;
            &&& generated_order(candidate, s.installed) == Some(Ordering::Greater) ==> r
                == RequestView::FindProgram { tool: Tool::Dnf }
            &&& generated_order(candidate, s.installed) != Some(Ordering::Greater) ==> r
                == RequestView::Finished {
                result: Err(
                    (None, "Refusing to install non-newer package version "@ + candidate
                        + " over installed version "@ + s.installed),
                ),
                remove_dir: Some(s.dir),
            }
        }),
{
}

/// A Gentoo artifact whose staged copy names its package version is merged with
/// Portage exactly when that version is a newer generated version than the installed
/// one; otherwise the install is refused as non-newer and the staging directory is
/// removed.
pub proof fn law_gentoo_merges_only_newer_versions(s: InstallState, out: Seq<u8>, candidate: Seq<char>)
    requires
        install_inv(s),
        s.stage == Stage::AwaitEntry(Subject::Candidate, GentooField::PackageVersion),
        s.kind == PackageKind::Gentoo,
        metadata_value(true, out, s.entry, "package-version"@, s.stable) == Ok::<Seq<char>, Seq<char>>(candidate),
    ensures
        ({
            let r = install_next(s, AnswerView::Output(Ok((true, out)))).1;
            &&& generated_order(candidate, s.installed) == Some(Ordering::Greater) ==> r
                == RequestView::MergeGentoo { path: s.stable }
            &&& generated_order(candidate, s.installed) != Some(Ordering::Greater) ==> r
                == RequestView::Finished {
                result: Err(
                    (None, "Refusing to install non-newer Gentoo package version "@ + candidate
                        + " over installed version "@ + s.installed),
                ),
                remove_dir: Some(s.dir),
            }
        }),
{
}

/// A pacman package goes on to pacman exactly when `vercmp` printed a positive
/// number (the candidate sorts after the installed version); a zero or negative
/// answer refuses the install as non-newer, and the staging directory is removed.
pub proof fn law_pacman_installs_only_what_vercmp_finds_newer(s: InstallState, out: Seq<u8>, n: int)
    requires
        install_inv(s),
        s.stage == Stage::AwaitVercmp,
        s.kind == PackageKind::Pacman,
        vstd::utf8::valid_utf8(out),
        crate::text::parse_i32(trim(vstd::utf8::decode_utf8(out))) == Some(n),
    ensures
        ({
            let r = install_next(s, AnswerView::Output(Ok((true, out)))).1;
            &&& n > 0 ==> r == RequestView::FindProgram { tool: Tool::Pacman }
            &&& n <= 0 ==> r == RequestView::Finished {
                result: Err(
                    (None, "Refusing to install non-newer package version "@ + s.candidate
                        + " over installed version "@ + s.installed),
                ),
                remove_dir: Some(s.dir),
            }
        }),
{
}

/// When no version of Codex is installed, the staged package goes straight to the
/// package manager of its kind, with no version comparison.
pub proof fn law_first_install_needs_no_comparison(s: InstallState)
    requires
        s.stage == Stage::AwaitInstalled,
    ensures
        ({
            let r = install_next(s, AnswerView::Text(Ok("unknown"@))).1;
            &&& s.kind == PackageKind::Deb ==> r == RequestView::FindProgram { tool: Tool::Apt }
            &&& s.kind == PackageKind::Rpm ==> r == RequestView::FindProgram { tool: Tool::Dnf }
            &&& s.kind == PackageKind::Pacman ==> r == RequestView::FindProgram { tool: Tool::Pacman }
            &&& s.kind == PackageKind::Gentoo ==> r == RequestView::MergeGentoo { path: s.stable }
        }),
{
}

/// A Debian package that `dpkg` judges newer than the installed version goes on to
/// the package manager (apt is looked for first).
pub proof fn law_newer_deb_goes_to_the_package_manager(s: InstallState)
    requires
        s.stage == Stage::AwaitDebCompare,
        s.kind == PackageKind::Deb,
    ensures
        install_next(s, AnswerView::Verdict(Ok(true))).1 == (RequestView::FindProgram { tool: Tool::Apt }),
{
}

/// A new install of the package at `path` with the package manager for `kind`.
pub open spec fn install_start(kind: PackageKind, path: Seq<char>) -> InstallState {
    InstallState {
        kind,
        path,
        source: Seq::empty(),
        dir: Seq::empty(),
        stable: Seq::empty(),
        entry: Seq::empty(),
        gentoo_version: Seq::empty(),
        installed: Seq::empty(),
        candidate: Seq::empty(),
        failure: Seq::empty(),
        staged: false,
        stage: Stage::Begin,
    }
}

fn field_file(f: GentooField) -> (r: &'static str)
    ensures
        r@ == "metadata/"@ + field_name(f),
{
    match f {
        GentooField::PackageName => {
            proof {
                reveal_strlit("metadata/package-name");
                reveal_strlit("metadata/");
                reveal_strlit("package-name");
            }
            "metadata/package-name"
        },
        GentooField::Category => {
            proof {
                reveal_strlit("metadata/category");
                reveal_strlit("metadata/");
                reveal_strlit("category");
            }
            "metadata/category"
        },
        GentooField::PackageVersion => {
            proof {
                reveal_strlit("metadata/package-version");
                reveal_strlit("metadata/");
                reveal_strlit("package-version");
            }
            "metadata/package-version"
        },
        GentooField::Distfile => {
            proof {
                reveal_strlit("metadata/distfile");
                reveal_strlit("metadata/");
                reveal_strlit("distfile");
            }
            "metadata/distfile"
        },
    }
}

fn field_label(f: GentooField) -> (r: &'static str)
    ensures
        r@ == field_name(f),
{
    match f {
        GentooField::PackageName => "package-name",
        GentooField::Category => "category",
        GentooField::PackageVersion => "package-version",
        GentooField::Distfile => "distfile",
    }
}

fn name_tool_of(kind: PackageKind) -> (r: &'static str)
    ensures
        r@ == name_tool(kind),
{
    match kind {
        PackageKind::Rpm => "rpm",
        PackageKind::Pacman => "pacman",
        _ => "dpkg-deb",
    }
}

fn text(s: &str) -> (r: String)
    ensures
        r@ == s@,
{
    String::from_str(s)
}

/// Starts installing the Debian package at `path`.
pub fn install_deb(path: &str) -> (r: Installer)
    ensures
        r@ == install_start(PackageKind::Deb, path@),
{
    Installer::start(PackageKind::Deb, path)
}

/// Starts installing the RPM package at `path`.
pub fn install_rpm(path: &str) -> (r: Installer)
    ensures
        r@ == install_start(PackageKind::Rpm, path@),
{
    Installer::start(PackageKind::Rpm, path)
}

/// Starts installing the pacman package at `path`.
pub fn install_pacman(path: &str) -> (r: Installer)
    ensures
        r@ == install_start(PackageKind::Pacman, path@),
{
    Installer::start(PackageKind::Pacman, path)
}

/// Starts installing the Gentoo overlay artifact at `path`.
pub fn install_gentoo(path: &str) -> (r: Installer)
    ensures
        r@ == install_start(PackageKind::Gentoo, path@),
{
    Installer::start(PackageKind::Gentoo, path)
}

impl Installer {
    /// An install of the package at `path` with the package manager for `kind`.
    pub fn start(kind: PackageKind, path: &str) -> (r: Installer)
        ensures
            r@ == install_start(kind, path@),
    {
        let r = Installer {
            kind,
            path: text(path),
            source: String::new(),
            dir: String::new(),
            stable: String::new(),
            entry: String::new(),
            gentoo_version: String::new(),
            installed: String::new(),
            candidate: String::new(),
            failure: String::new(),
            staged: false,
            stage: Stage::Begin,
        };
        assert(r@ == install_start(kind, path@));
        r
    }

    /// Whether the install is over.
    pub fn is_finished(&self) -> (r: bool)
        ensures
            r == (self@.stage == Stage::Finished),
    {
        self.stage == Stage::Finished
    }

    fn finish_with(&mut self, context: Option<String>, message: Option<String>) -> (r: InstallRequest)
        ensures
            (final(self)@, r@) == finish(
                old(self)@,
                match message {
                    None => Ok(()),
                    Some(m) => Err((opt_text(context), m@)),
                },
            ),
    {
        self.stage = Stage::Finished;
        let remove_dir = if self.staged {
            Some(self.dir.clone())
        } else {
            None
        };
        let result = match message {
            None => Ok(()),
            Some(m) => Err(InstallError { context, message: m }),
        };
        InstallRequest::Finished { result, remove_dir }
    }

    fn fail(&mut self, e: String) -> (r: InstallRequest)
        ensures
            (final(self)@, r@) == fail(old(self)@, e@),
    {
        self.finish_with(None, Some(e))
    }

    fn fail_staging(&mut self, e: String) -> (r: InstallRequest)
        ensures
            (final(self)@, r@) == fail_staging(old(self)@, e@),
    {
        let mut c = to_chars("Failed to stabilize ");
        match self.kind {
            PackageKind::Deb => append_str(&mut c, "Debian"),
            PackageKind::Rpm => append_str(&mut c, "RPM"),
            PackageKind::Pacman => append_str(&mut c, "pacman"),
            PackageKind::Gentoo => append_str(&mut c, "Gentoo"),
        }
        append_str(&mut c, " package ");
        append_str(&mut c, self.path.as_str());
        let context = string_from_chars(c.as_slice());
        self.finish_with(Some(context), Some(e))
    }

    fn fail_on(&mut self, subject: Subject, e: String) -> (r: InstallRequest)
        ensures
            (final(self)@, r@) == fail_on(old(self)@, subject, e@),
    {
        if subject == Subject::Candidate {
            self.fail(e)
        } else {
            self.fail_staging(e)
        }
    }

    fn unexpected(&mut self) -> (r: InstallRequest)
        ensures
            (final(self)@, r@) == fail(old(self)@, unexpected()),
    {
        self.fail(text("the install was given a result it did not ask for"))
    }

    fn subject_path(&self, subject: Subject) -> (r: String)
        ensures
            r@ == subject_path(self@, subject),
    {
        if subject == Subject::Source {
            self.source.clone()
        } else {
            self.stable.clone()
        }
    }

    fn begin_identity(&mut self, subject: Subject) -> (r: InstallRequest)
        ensures
            (final(self)@, r@) == begin_identity(old(self)@, subject),
    {
        let p = self.subject_path(subject);
        match ensure_codex_package(p.as_str()) {
            Err(e) => self.fail_staging(e),
            Ok(PackageQuery::GentooMetadata) => {
                self.stage = Stage::AwaitListing(subject, GentooField::PackageName);
                InstallRequest::ListGentooArtifact { path: p }
            },
            Ok(q) => {
                self.stage = Stage::AwaitName(subject);
                InstallRequest::ReadPackageName { query: q, path: p }
            },
        }
    }

    fn identity_passed(&mut self, subject: Subject) -> (r: InstallRequest)
        ensures
            (final(self)@, r@) == identity_passed(old(self)@, subject),
    {
        if subject == Subject::Source {
            self.stage = Stage::AwaitDir;
            InstallRequest::CreateStagingDir
        } else {
            self.stage = Stage::AwaitInstalled;
            self.staged = true;
            InstallRequest::InstalledVersion { kind: self.kind }
        }
    }

    fn begin_install(&mut self) -> (r: InstallRequest)
        ensures
            (final(self)@, r@) == begin_install(old(self)@),
    {
        match self.kind {
            PackageKind::Deb => {
                self.stage = Stage::AwaitProgram(Tool::Apt);
                InstallRequest::FindProgram { tool: Tool::Apt }
            },
            PackageKind::Rpm => {
                self.stage = Stage::AwaitProgram(Tool::Dnf);
                InstallRequest::FindProgram { tool: Tool::Dnf }
            },
            PackageKind::Pacman => {
                self.stage = Stage::AwaitProgram(Tool::Pacman);
                InstallRequest::FindProgram { tool: Tool::Pacman }
            },
            PackageKind::Gentoo => {
                self.stage = Stage::AwaitMerge;
                InstallRequest::MergeGentoo { path: self.stable.clone() }
            },
        }
    }

    fn after_upgrade_check(&mut self, newer: bool, gentoo: bool) -> (r: InstallRequest)
        ensures
            (final(self)@, r@) == after_upgrade_check(old(self)@, newer, gentoo),
    {
        match refuse_non_newer(self.candidate.as_str(), self.installed.as_str(), newer, gentoo) {
            Err(e) => self.fail(e),
            Ok(()) => self.begin_install(),
        }
    }

    fn gentoo_value(&mut self, subject: Subject, f: GentooField, v: String) -> (r: InstallRequest)
        ensures
            (final(self)@, r@) == gentoo_value(old(self)@, subject, f, v@),
    {
        let p = self.subject_path(subject);
        if subject == Subject::Candidate {
            let newer = crate::version::generated_package_version_is_newer(v.as_str(), self.installed.as_str());
            self.candidate = v;
            return self.after_upgrade_check(newer, true);
        }
        let check = match f {
            GentooField::PackageName => check_gentoo_package_name(v.as_str(), p.as_str()),
            GentooField::Category => check_gentoo_category(v.as_str(), p.as_str()),
            GentooField::PackageVersion => check_gentoo_version(v.as_str(), p.as_str()),
            GentooField::Distfile => check_gentoo_distfile(
                v.as_str(),
                self.gentoo_version.as_str(),
                p.as_str(),
            ),
        };
        match check {
            Err(e) => self.fail_staging(e),
            Ok(()) => {
                if f == GentooField::Distfile {
                    self.identity_passed(subject)
                } else {
                    if f == GentooField::PackageVersion {
                        self.gentoo_version = v;
                    }
                    let next = match f {
                        GentooField::PackageName => GentooField::Category,
                        GentooField::Category => GentooField::PackageVersion,
                        _ => GentooField::Distfile,
                    };
                    self.stage = Stage::AwaitListing(subject, next);
                    InstallRequest::ListGentooArtifact { path: p }
                }
            },
        }
    }

    fn run(&mut self, failure: &str, command: CommandLine) -> (r: InstallRequest)
        ensures
            final(self)@ == (InstallState { stage: Stage::AwaitRun, failure: failure@, ..old(self)@ }),
            r@ == (RequestView::Run { command: command@ }),
    {
        self.stage = Stage::AwaitRun;
        self.failure = text(failure);
        InstallRequest::Run { command }
    }

    fn program_found(&mut self, tool: Tool, exists: bool, program: String) -> (r: InstallRequest)
        ensures
            (final(self)@, r@) == program_found(old(self)@, tool, exists, program@),
    {
        match tool {
            Tool::Apt => {
                if exists {
                    match install_command_in_parent(program.as_str(), self.stable.as_str()) {
                        Err(e) => self.fail(e),
                        Ok(c) => self.run("apt install failed", c),
                    }
                } else {
                    self.stage = Stage::AwaitProgram(Tool::Dpkg);
                    InstallRequest::FindProgram { tool: Tool::Dpkg }
                }
            },
            Tool::Dpkg => {
                let c = dpkg_install_command(program.as_str(), self.stable.as_str());
                self.run("dpkg -i failed", c)
            },
            Tool::Dnf => {
                if exists {
                    match install_command_in_parent(program.as_str(), self.stable.as_str()) {
                        Err(e) => self.fail(e),
                        Ok(c) => self.run("dnf install failed", c),
                    }
                } else {
                    self.stage = Stage::AwaitProgram(Tool::Zypper);
                    InstallRequest::FindProgram { tool: Tool::Zypper }
                }
            },
            Tool::Zypper => {
                if exists {
                    match zypper_install_command(program.as_str(), self.stable.as_str()) {
                        Err(e) => self.fail(e),
                        Ok(c) => self.run("zypper install failed", c),
                    }
                } else {
                    self.stage = Stage::AwaitProgram(Tool::Rpm);
                    InstallRequest::FindProgram { tool: Tool::Rpm }
                }
            },
            Tool::Rpm => {
                let c = rpm_install_command(program.as_str(), self.stable.as_str());
                self.run("rpm -Uvh failed", c)
            },
            Tool::Pacman => {
                let c = pacman_install_command(program.as_str(), self.stable.as_str());
                self.run("pacman -U failed", c)
            },
        }
    }

    fn on_begin(&mut self, answer: InstallAnswer) -> (r: InstallRequest)
        requires
            old(self)@.stage == Stage::Begin,
        ensures
            (final(self)@, r@) == install_next(old(self)@, answer@),
    {
        self.stage = Stage::AwaitFile;
        InstallRequest::IsFile { path: self.path.clone() }
    }

    fn on_await_file(&mut self, answer: InstallAnswer) -> (r: InstallRequest)
        requires
            old(self)@.stage == Stage::AwaitFile,
        ensures
            (final(self)@, r@) == install_next(old(self)@, answer@),
    {
        match answer {
            InstallAnswer::Flag(true) => {
                self.stage = Stage::AwaitResolve;
                InstallRequest::Canonicalize { path: self.path.clone() }
            },
            InstallAnswer::Flag(false) => {
                let e = not_a_file_error(self.path.as_str());
                self.fail_staging(e)
            },
            _ => self.unexpected(),
        }
    }

    fn on_await_resolve(&mut self, answer: InstallAnswer) -> (r: InstallRequest)
        requires
            old(self)@.stage == Stage::AwaitResolve,
        ensures
            (final(self)@, r@) == install_next(old(self)@, answer@),
    {
        match answer {
            InstallAnswer::Text(Err(e)) => self.fail_staging(e),
            InstallAnswer::Text(Ok(src)) => {
                self.source = src;
                let requested = PackageKind::from_path(self.path.as_str());
                let resolved = PackageKind::from_path(self.source.as_str());
                match check_kind_unchanged(requested, resolved, StagingPhase::Resolving, self.path.as_str()) {
                    Err(e) => self.fail_staging(e),
                    Ok(()) => self.begin_identity(Subject::Source),
                }
            },
            _ => self.unexpected(),
        }
    }

    fn on_await_name(&mut self, subject: Subject, answer: InstallAnswer) -> (r: InstallRequest)
        requires
            old(self)@.stage == Stage::AwaitName(subject),
        ensures
            (final(self)@, r@) == install_next(old(self)@, answer@),
    {
        match answer {
            InstallAnswer::Output(Err(e)) => self.fail_staging(e),
            InstallAnswer::Output(Ok((ok, out))) => {
                let p = self.subject_path(subject);
                let tool = name_tool_of(PackageKind::from_path(p.as_str()));
                match package_metadata_field(ok, out, tool, "package name", p.as_str()) {
                    Err(e) => self.fail_staging(e),
                    Ok(n) => match ensure_package_name(n.as_str(), p.as_str()) {
                        Err(e) => self.fail_staging(e),
                        Ok(()) => self.identity_passed(subject),
                    },
                }
            },
            _ => self.unexpected(),
        }
    }

    fn on_await_listing(&mut self, subject: Subject, f: GentooField, answer: InstallAnswer) -> (r: InstallRequest)
        requires
            old(self)@.stage == Stage::AwaitListing(subject, f),
        ensures
            (final(self)@, r@) == install_next(old(self)@, answer@),
    {
        match answer {
            InstallAnswer::Output(Err(e)) => self.fail_on(subject, e),
            InstallAnswer::Output(Ok((ok, out))) => {
                let p = self.subject_path(subject);
                let suffix = field_file(f);
                match artifact_listing(ok, out, p.as_str()) {
                    Err(e) => self.fail_on(subject, e),
                    Ok(t) => match gentoo_artifact_entry(t.as_str(), suffix) {
                        None => {
                            let e = missing_entry_error(p.as_str(), suffix);
                            self.fail_on(subject, e)
                        },
                        Some(en) => {
                            self.stage = Stage::AwaitEntry(subject, f);
                            self.entry = en.clone();
                            InstallRequest::ReadGentooEntry { path: p, entry: en }
                        },
                    },
                }
            },
            _ => self.unexpected(),
        }
    }

    fn on_await_entry(&mut self, subject: Subject, f: GentooField, answer: InstallAnswer) -> (r: InstallRequest)
        requires
            old(self)@.stage == Stage::AwaitEntry(subject, f),
        ensures
            (final(self)@, r@) == install_next(old(self)@, answer@),
    {
        match answer {
            InstallAnswer::Output(Err(e)) => self.fail_on(subject, e),
            InstallAnswer::Output(Ok((ok, out))) => {
                let p = self.subject_path(subject);
                match artifact_metadata_value(ok, out, self.entry.as_str(), field_label(f), p.as_str()) {
                    Err(e) => self.fail_on(subject, e),
                    Ok(v) => self.gentoo_value(subject, f, v),
                }
            },
            _ => self.unexpected(),
        }
    }

    fn on_await_dir(&mut self, answer: InstallAnswer) -> (r: InstallRequest)
        requires
            old(self)@.stage == Stage::AwaitDir,
        ensures
            (final(self)@, r@) == install_next(old(self)@, answer@),
    {
        match answer {
            InstallAnswer::Text(Err(e)) => self.fail_staging(e),
            InstallAnswer::Text(Ok(dir)) => {
                let kind = PackageKind::from_path(self.source.as_str());
                match stable_file_name(kind, self.source.as_str()) {
                    Err(e) => {
                        self.dir = dir;
                        self.fail_staging(e)
                    },
                    Ok(name) => {
                        let stable = join(dir.as_str(), name.as_str());
                        self.dir = dir;
                        self.stable = stable.clone();
                        self.stage = Stage::AwaitCopy;
                        InstallRequest::CopyPackage { from: self.source.clone(), to: stable }
                    },
                }
            },
            _ => self.unexpected(),
        }
    }

    fn on_await_copy(&mut self, answer: InstallAnswer) -> (r: InstallRequest)
        requires
            old(self)@.stage == Stage::AwaitCopy,
        ensures
            (final(self)@, r@) == install_next(old(self)@, answer@),
    {
        match answer {
            InstallAnswer::Done(Err(e)) => self.fail_staging(e),
            InstallAnswer::Done(Ok(())) => {
                self.stage = Stage::AwaitLockDown;
                InstallRequest::LockDownPackage { path: self.stable.clone() }
            },
            _ => self.unexpected(),
        }
    }

    fn on_await_lock_down(&mut self, answer: InstallAnswer) -> (r: InstallRequest)
        requires
            old(self)@.stage == Stage::AwaitLockDown,
        ensures
            (final(self)@, r@) == install_next(old(self)@, answer@),
    {
        match answer {
            InstallAnswer::Done(Err(e)) => self.fail_staging(e),
            InstallAnswer::Done(Ok(())) => {
                let kind = PackageKind::from_path(self.source.as_str());
                let staged = PackageKind::from_path(self.stable.as_str());
                match check_kind_unchanged(kind, staged, StagingPhase::Stabilizing, self.path.as_str()) {
                    Err(e) => self.fail_staging(e),
                    Ok(()) => self.begin_identity(Subject::Staged),
                }
            },
            _ => self.unexpected(),
        }
    }

    fn on_await_installed(&mut self, answer: InstallAnswer) -> (r: InstallRequest)
        requires
            old(self)@.stage == Stage::AwaitInstalled,
        ensures
            (final(self)@, r@) == install_next(old(self)@, answer@),
    {
        match answer {
            InstallAnswer::Text(Err(e)) => self.fail(e),
            InstallAnswer::Text(Ok(v)) => {
                let known = crate::staging::installed_version_known(v.as_str());
                self.installed = v;
                if !known {
                    self.begin_install()
                } else {
                    match self.kind {
                        PackageKind::Deb | PackageKind::Rpm => {
                            self.stage = Stage::AwaitCandidate;
                            InstallRequest::ReadPackageVersion {
                                kind: self.kind,
                                path: self.stable.clone(),
                            }
                        },
                        PackageKind::Pacman => match pacman_package_version(self.stable.as_str()) {
                            Err(e) => self.fail(e),
                            Ok(c) => {
                                self.stage = Stage::AwaitVercmp;
                                self.candidate = c.clone();
                                InstallRequest::CompareWithVercmp {
                                    candidate: c,
                                    installed: self.installed.clone(),
                                }
                            },
                        },
                        PackageKind::Gentoo => {
                            self.stage = Stage::AwaitListing(
                                Subject::Candidate,
                                GentooField::PackageVersion,
                            );
                            InstallRequest::ListGentooArtifact { path: self.stable.clone() }
                        },
                    }
                }
            },
            _ => self.unexpected(),
        }
    }

    fn on_await_candidate(&mut self, answer: InstallAnswer) -> (r: InstallRequest)
        requires
            old(self)@.stage == Stage::AwaitCandidate,
        ensures
            (final(self)@, r@) == install_next(old(self)@, answer@),
    {
        match answer {
            InstallAnswer::Output(Err(e)) => self.fail(e),
            InstallAnswer::Output(Ok((ok, out))) => {
                let tool = name_tool_of(self.kind);
                match package_metadata_field(ok, out, tool, "package version", self.stable.as_str()) {
                    Err(e) => self.fail(e),
                    Ok(c) => {
                        self.candidate = c.clone();
                        if self.kind == PackageKind::Deb {
                            self.stage = Stage::AwaitDebCompare;
                            InstallRequest::CompareDebVersions {
                                candidate: c,
                                installed: self.installed.clone(),
                            }
                        } else {
                            let newer = crate::version::generated_package_version_is_newer(
                                c.as_str(),
                                self.installed.as_str(),
                            );
                            self.after_upgrade_check(newer, false)
                        }
                    },
                }
            },
            _ => self.unexpected(),
        }
    }

    fn on_await_deb_compare(&mut self, answer: InstallAnswer) -> (r: InstallRequest)
        requires
            old(self)@.stage == Stage::AwaitDebCompare,
        ensures
            (final(self)@, r@) == install_next(old(self)@, answer@),
    {
        match answer {
            InstallAnswer::Verdict(Err(e)) => self.fail(e),
            InstallAnswer::Verdict(Ok(newer)) => self.after_upgrade_check(newer, false),
            _ => self.unexpected(),
        }
    }

    fn on_await_vercmp(&mut self, answer: InstallAnswer) -> (r: InstallRequest)
        requires
            old(self)@.stage == Stage::AwaitVercmp,
        ensures
            (final(self)@, r@) == install_next(old(self)@, answer@),
    {
        match answer {
            InstallAnswer::Output(Err(e)) => self.fail(e),
            InstallAnswer::Output(Ok((_ok, out))) => match vercmp_says_newer(out) {
                Err(e) => self.fail(e),
                Ok(newer) => self.after_upgrade_check(newer, false),
            },
            _ => self.unexpected(),
        }
    }

    fn on_await_program(&mut self, tool: Tool, answer: InstallAnswer) -> (r: InstallRequest)
        requires
            old(self)@.stage == Stage::AwaitProgram(tool),
        ensures
            (final(self)@, r@) == install_next(old(self)@, answer@),
    {
        match answer {
            InstallAnswer::Program { exists, path } => self.program_found(tool, exists, path),
            _ => self.unexpected(),
        }
    }

    fn on_await_run(&mut self, answer: InstallAnswer) -> (r: InstallRequest)
        requires
            old(self)@.stage == Stage::AwaitRun,
        ensures
            (final(self)@, r@) == install_next(old(self)@, answer@),
    {
        match answer {
            InstallAnswer::Done(Ok(())) => self.finish_with(None, None),
            InstallAnswer::Done(Err(e)) => {
                let context = self.failure.clone();
                self.finish_with(Some(context), Some(e))
            },
            _ => self.unexpected(),
        }
    }

    fn on_await_merge(&mut self, answer: InstallAnswer) -> (r: InstallRequest)
        requires
            old(self)@.stage == Stage::AwaitMerge,
        ensures
            (final(self)@, r@) == install_next(old(self)@, answer@),
    {
        match answer {
            InstallAnswer::Done(Ok(())) => self.finish_with(None, None),
            InstallAnswer::Done(Err(e)) => self.finish_with(
                Some(text("Gentoo package install failed")),
                Some(e),
            ),
            _ => self.unexpected(),
        }
    }

    fn on_finished(&mut self, answer: InstallAnswer) -> (r: InstallRequest)
        requires
            old(self)@.stage == Stage::Finished,
        ensures
            (final(self)@, r@) == install_next(old(self)@, answer@),
    {
        self.unexpected()
    }

    /// Takes the result of the last request and gives the next one.
    pub fn step(&mut self, answer: InstallAnswer) -> (r: InstallRequest)
        ensures
            (final(self)@, r@) == install_next(old(self)@, answer@),
    {
        match self.stage {
            Stage::Begin => self.on_begin(answer),
            Stage::AwaitFile => self.on_await_file(answer),
            Stage::AwaitResolve => self.on_await_resolve(answer),
            Stage::AwaitName(subject) => self.on_await_name(subject, answer),
            Stage::AwaitListing(subject, f) => self.on_await_listing(subject, f, answer),
            Stage::AwaitEntry(subject, f) => self.on_await_entry(subject, f, answer),
            Stage::AwaitDir => self.on_await_dir(answer),
            Stage::AwaitCopy => self.on_await_copy(answer),
            Stage::AwaitLockDown => self.on_await_lock_down(answer),
            Stage::AwaitInstalled => self.on_await_installed(answer),
            Stage::AwaitCandidate => self.on_await_candidate(answer),
            Stage::AwaitDebCompare => self.on_await_deb_compare(answer),
            Stage::AwaitVercmp => self.on_await_vercmp(answer),
            Stage::AwaitProgram(tool) => self.on_await_program(tool, answer),
            Stage::AwaitRun => self.on_await_run(answer),
            Stage::AwaitMerge => self.on_await_merge(answer),
            Stage::Finished => self.on_finished(answer),
        }
    }
}

/// `root` joined with the relative name `name`, as `Path::join` does.
fn join(root: &str, name: &str) -> (r: String)
    ensures
        r@ == crate::assets::join_path(root@, name@),
{
    let root_chars = to_chars(root);
    let mut path: Vec<char> = Vec::new();
    crate::text::append_chars(&mut path, root_chars.as_slice());
    if root_chars.len() > 0 && root_chars[root_chars.len() - 1] != '/' {
        append_str(&mut path, "/");
    }
    append_str(&mut path, name);
    proof {
        if root@.len() == 0 {
            assert(path@ =~= name@);
        }
    }
    string_from_chars(path.as_slice())
}

} // verus!
