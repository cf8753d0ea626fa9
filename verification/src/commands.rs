//! The command lines the updater runs: package tools, and `pkexec` for the
//! privileged install.
use vstd::prelude::*;
use crate::package::{PackageKind, kind_of_path};
use crate::path::{file_name, path_file_name};
use crate::text::{append_str, str_result, string_from_chars, to_chars};

verus! {

/// A program to run, its arguments, and the directory to run it in.
#[derive(Debug)]
pub struct CommandLine {
    pub program: String,
    pub args: Vec<String>,
    pub current_dir: Option<String>,
}

pub open spec fn arg_views(args: Seq<String>) -> Seq<Seq<char>> {
    args.map_values(|a: String| a@)
}

pub open spec fn opt_text(o: Option<String>) -> Option<Seq<char>> {
    match o {
        Some(s) => Some(s@),
        None => None,
    }
}

/// A command line seen as text.
pub struct CommandView {
    pub program: Seq<char>,
    pub args: Seq<Seq<char>>,
    pub current_dir: Option<Seq<char>>,
}

impl View for CommandLine {
    type V = CommandView;

    open spec fn view(&self) -> CommandView {
        CommandView {
            program: self.program@,
            args: arg_views(self.args@),
            current_dir: opt_text(self.current_dir),
        }
    }
}

fn text(s: &str) -> (r: String)
    ensures
        r@ == s@,
{
    String::from_str(s)
}

fn args_of(parts: &[&str]) -> (r: Vec<String>)
    ensures
        arg_views(r@) == parts@.map_values(|p: &str| p@),
{
    let mut r: Vec<String> = Vec::new();
    let mut i: usize = 0;
    while i < parts.len()
        invariant
            i <= parts.len(),
            r@.len() == i,
            arg_views(r@) == parts@.take(i as int).map_values(|p: &str| p@),
        decreases parts.len() - i,
    {
        let ghost before = r@;
        let t = text(parts[i]);
        r.push(t);
        assert(arg_views(r@) =~= arg_views(before).push(parts@[i as int]@));
        assert(parts@.take(i + 1) =~= parts@.take(i as int).push(parts@[i as int]));
        assert(arg_views(r@) =~= parts@.take(i + 1).map_values(|p: &str| p@));
        i = i + 1;
    }
    assert(parts@.take(parts.len() as int) =~= parts@);
    r
}

/// `Path::parent` of a path.
pub uninterp spec fn path_parent(path: Seq<char>) -> Option<Seq<char>>;

/// `Path::parent`. Its result is named `path_parent`; as the standard library
/// documents, a path that ends in a root, such as `/`, and the empty path have none.
#[verifier::external_body]
fn parent_of(path: &str) -> (r: Option<String>)
    ensures
        opt_text(r) == path_parent(path@),
        path@ == "/"@ || path@.len() == 0 ==> r is None,
{
    std::path::Path::new(path).parent().map(|p| p.to_string_lossy().into_owned())
}

/// `./<file name>`, the way the package tools are told to take a local file.
pub open spec fn local_file_arg(name: Seq<char>) -> Seq<char> {
    "./"@ + name
}

/// An install run in the package's own directory: `<program> <args> ./<file name>`,
/// or the reason the path does not allow it. `tool` names the program in errors.
pub open spec fn install_in_parent(
    program: Seq<char>,
    tool: Seq<char>,
    args: Seq<Seq<char>>,
    path: Seq<char>,
) -> Result<CommandView, Seq<char>> {
    match path_parent(path) {
        None => Err(tool + " package path has no parent directory"@),
        Some(parent) => match file_name(path) {
            None => Err(tool + " package path has no file name"@),
            Some(name) => Ok(
                CommandView {
                    program,
                    args: args.push(local_file_arg(name)),
                    current_dir: Some(parent),
                },
            ),
        },
    }
}

/// The name a program goes by in errors: its file name, or `package manager`.
pub open spec fn program_name(program: Seq<char>) -> Seq<char> {
    match file_name(program) {
        Some(n) => n,
        None => "package manager"@,
    }
}

pub open spec fn command_result(r: Result<CommandLine, String>) -> Result<CommandView, Seq<char>> {
    match r {
        Ok(c) => Ok(c@),
        Err(e) => Err(e@),
    }
}

fn in_parent(program: &str, tool: &str, fixed: &[&str], path: &str) -> (r: Result<CommandLine, String>)
    ensures
        command_result(r) == install_in_parent(
            program@,
            tool@,
            fixed@.map_values(|p: &str| p@),
            path@,
        ),
{
    let parent = match parent_of(path) {
        Some(p) => p,
        None => {
            let mut m = to_chars(tool);
            append_str(&mut m, " package path has no parent directory");
            return Err(string_from_chars(m.as_slice()));
        },
    };
    let chars = to_chars(path);
    let name = match path_file_name(chars.as_slice()) {
        Some(n) => n,
        None => {
            let mut m = to_chars(tool);
            append_str(&mut m, " package path has no file name");
            return Err(string_from_chars(m.as_slice()));
        },
    };
    let mut local = to_chars("./");
    crate::text::append_chars(&mut local, name.as_slice());
    let mut args = args_of(fixed);
    let ghost before = arg_views(args@);
    args.push(string_from_chars(local.as_slice()));
    assert(arg_views(args@) =~= before.push(local@));
    Ok(CommandLine { program: text(program), args, current_dir: Some(parent) })
}

/// `<program> install -y ./<file name>`, run in the package's directory; used for
/// `apt` and `dnf`, which resolve dependencies of a local package that way.
pub fn install_command_in_parent(program: &str, path: &str) -> (r: Result<CommandLine, String>)
    ensures
        command_result(r) == install_in_parent(
            program@,
            program_name(program@),
            seq!["install"@, "-y"@],
            path@,
        ),
{
    let chars = to_chars(program);
    let tool = match path_file_name(chars.as_slice()) {
        Some(n) => string_from_chars(n.as_slice()),
        None => text("package manager"),
    };
    let fixed: [&str; 2] = ["install", "-y"];
    let r = in_parent(program, tool.as_str(), fixed.as_slice(), path);
    assert(fixed@.map_values(|p: &str| p@) =~= seq!["install"@, "-y"@]);
    r
}

/// `zypper --non-interactive --no-gpg-checks install -y ./<file name>`, run in the
/// package's directory.
pub fn zypper_install_command(program: &str, path: &str) -> (r: Result<CommandLine, String>)
    ensures
        command_result(r) == install_in_parent(
            program@,
            "zypper"@,
            seq!["--non-interactive"@, "--no-gpg-checks"@, "install"@, "-y"@],
            path@,
        ),
{
    let fixed: [&str; 4] = ["--non-interactive", "--no-gpg-checks", "install", "-y"];
    let r = in_parent(program, "zypper", fixed.as_slice(), path);
    assert(fixed@.map_values(|p: &str| p@) =~= seq![
        "--non-interactive"@,
        "--no-gpg-checks"@,
        "install"@,
        "-y"@,
    ]);
    r
}

/// A command run where the updater runs, with `--` before the package path so that a
/// path starting with `-` is never read as an option.
fn plain(program: &str, parts: &[&str]) -> (r: CommandLine)
    ensures
        r@ == (CommandView {
            program: program@,
            args: parts@.map_values(|p: &str| p@),
            current_dir: None,
        }),
{
    CommandLine { program: text(program), args: args_of(parts), current_dir: None }
}

/// `dpkg -i -- <path>`
pub fn dpkg_install_command(program: &str, path: &str) -> (r: CommandLine)
    ensures
        r@ == (CommandView { program: program@, args: seq!["-i"@, "--"@, path@], current_dir: None }),
{
    let parts: [&str; 3] = ["-i", "--", path];
    let r = plain(program, parts.as_slice());
    assert(parts@.map_values(|p: &str| p@) =~= seq!["-i"@, "--"@, path@]);
    r
}

/// `rpm -Uvh -- <path>`
pub fn rpm_install_command(program: &str, path: &str) -> (r: CommandLine)
    ensures
        r@ == (CommandView { program: program@, args: seq!["-Uvh"@, "--"@, path@], current_dir: None }),
{
    let parts: [&str; 3] = ["-Uvh", "--", path];
    let r = plain(program, parts.as_slice());
    assert(parts@.map_values(|p: &str| p@) =~= seq!["-Uvh"@, "--"@, path@]);
    r
}

/// `pacman -U --noconfirm -- <path>`
pub fn pacman_install_command(program: &str, path: &str) -> (r: CommandLine)
    ensures
        r@ == (CommandView {
            program: program@,
            args: seq!["-U"@, "--noconfirm"@, "--"@, path@],
            current_dir: None,
        }),
{
    let parts: [&str; 4] = ["-U", "--noconfirm", "--", path];
    let r = plain(program, parts.as_slice());
    assert(parts@.map_values(|p: &str| p@) =~= seq!["-U"@, "--noconfirm"@, "--"@, path@]);
    r
}

/// `dpkg-deb -f -- <path> <field>`
pub fn dpkg_deb_field_command(program: &str, path: &str, field: &str) -> (r: CommandLine)
    ensures
        r@ == (CommandView {
            program: program@,
            args: seq!["-f"@, "--"@, path@, field@],
            current_dir: None,
        }),
{
    let parts: [&str; 4] = ["-f", "--", path, field];
    let r = plain(program, parts.as_slice());
    assert(parts@.map_values(|p: &str| p@) =~= seq!["-f"@, "--"@, path@, field@]);
    r
}

/// `rpm -qp --queryformat <format> -- <path>`
pub fn rpm_query_command(program: &str, path: &str, queryformat: &str) -> (r: CommandLine)
    ensures
        r@ == (CommandView {
            program: program@,
            args: seq!["-qp"@, "--queryformat"@, queryformat@, "--"@, path@],
            current_dir: None,
        }),
{
    let parts: [&str; 5] = ["-qp", "--queryformat", queryformat, "--", path];
    let r = plain(program, parts.as_slice());
    assert(parts@.map_values(|p: &str| p@) =~= seq![
        "-qp"@,
        "--queryformat"@,
        queryformat@,
        "--"@,
        path@,
    ]);
    r
}

/// `pacman -Qqp -- <path>`
pub fn pacman_query_name_command(program: &str, path: &str) -> (r: CommandLine)
    ensures
        r@ == (CommandView { program: program@, args: seq!["-Qqp"@, "--"@, path@], current_dir: None }),
{
    let parts: [&str; 3] = ["-Qqp", "--", path];
    let r = plain(program, parts.as_slice());
    assert(parts@.map_values(|p: &str| p@) =~= seq!["-Qqp"@, "--"@, path@]);
    r
}

/// `emerge --oneshot --verbose <atom>`
pub fn gentoo_emerge_command(program: &str, atom: &str) -> (r: CommandLine)
    ensures
        r@ == (CommandView {
            program: program@,
            args: seq!["--oneshot"@, "--verbose"@, atom@],
            current_dir: None,
        }),
{
    let parts: [&str; 3] = ["--oneshot", "--verbose", atom];
    let r = plain(program, parts.as_slice());
    assert(parts@.map_values(|p: &str| p@) =~= seq!["--oneshot"@, "--verbose"@, atom@]);
    r
}

/// The updater installed system-wide.
pub open spec fn installed_updater_binary() -> Seq<char> {
    "/usr/bin/codex-update-manager"@
}

/// The updater `pkexec` runs: the system-wide one when it is installed, so that the
/// privileged step never runs a copy the user could have replaced; else this one.
pub fn updater_binary_for_privileged_install(installed_is_file: bool, current_exe: &str) -> (r: String)
    ensures
        r@ == if installed_is_file {
            installed_updater_binary()
        } else {
            current_exe@
        },
{
    if installed_is_file {
        text("/usr/bin/codex-update-manager")
    } else {
        text(current_exe)
    }
}

/// The updater subcommand that installs a package of `kind`.
pub open spec fn install_subcommand(kind: PackageKind) -> Seq<char> {
    match kind {
        PackageKind::Rpm => "install-rpm"@,
        PackageKind::Deb => "install-deb"@,
        PackageKind::Pacman => "install-pacman"@,
        PackageKind::Gentoo => "install-gentoo"@,
    }
}

/// `pkexec --disable-internal-agent <updater> install-<kind> --path <package>`, the
/// command that installs a package with administrator rights; `installed_is_file`
/// tells whether the system-wide updater exists.
pub fn pkexec_command(installed_is_file: bool, current_exe: &str, package_path: &str) -> (r: CommandLine)
    ensures
        r@ == (CommandView {
            program: "pkexec"@,
            args: seq![
                "--disable-internal-agent"@,
                if installed_is_file {
                    installed_updater_binary()
                } else {
                    current_exe@
                },
                install_subcommand(kind_of_path(package_path@)),
                "--path"@,
                package_path@,
            ],
            current_dir: None,
        }),
{
    let updater = updater_binary_for_privileged_install(installed_is_file, current_exe);
    let subcommand = match PackageKind::from_path(package_path) {
        PackageKind::Rpm => "install-rpm",
        PackageKind::Deb => "install-deb",
        PackageKind::Pacman => "install-pacman",
        PackageKind::Gentoo => "install-gentoo",
    };
    let parts: [&str; 5] = ["--disable-internal-agent", updater.as_str(), subcommand, "--path", package_path];
    let r = plain("pkexec", parts.as_slice());
    assert(parts@.map_values(|p: &str| p@) =~= seq![
        "--disable-internal-agent"@,
        updater@,
        subcommand@,
        "--path"@,
        package_path@,
    ]);
    r
}

} // verus!
