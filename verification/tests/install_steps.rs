use codex_desktop_linux::install::{
    install_deb, install_gentoo, install_pacman, install_rpm, InstallAnswer, InstallRequest,
    Installer, Tool,
};
use codex_desktop_linux::package::PackageKind;
use codex_desktop_linux::staging::PackageQuery;

fn output(text: &str) -> InstallAnswer {
    InstallAnswer::Output(Ok((true, text.as_bytes().to_vec())))
}

fn expect_finished(request: InstallRequest) -> (Result<(), (Option<String>, String)>, Option<String>) {
    match request {
        InstallRequest::Finished { result, remove_dir } => (
            result.map_err(|e| (e.context, e.message)),
            remove_dir,
        ),
        other => panic!("expected the install to be over, got {other:?}"),
    }
}

/// Runs a Debian install up to the point where the staged copy is confirmed.
fn staged_deb(installer: &mut Installer) {
    assert!(matches!(
        installer.step(InstallAnswer::Start),
        InstallRequest::IsFile { path } if path == "/home/u/codex.deb"
    ));
    assert!(matches!(
        installer.step(InstallAnswer::Flag(true)),
        InstallRequest::Canonicalize { .. }
    ));
    match installer.step(InstallAnswer::Text(Ok("/home/u/builds/codex.deb".to_string()))) {
        InstallRequest::ReadPackageName { query, path } => {
            assert_eq!(query, PackageQuery::DebName);
            assert_eq!(path, "/home/u/builds/codex.deb");
        }
        other => panic!("unexpected {other:?}"),
    }
    assert!(matches!(
        installer.step(output("codex-desktop\n")),
        InstallRequest::CreateStagingDir
    ));
    match installer.step(InstallAnswer::Text(Ok("/tmp/stage-1".to_string()))) {
        InstallRequest::CopyPackage { from, to } => {
            assert_eq!(from, "/home/u/builds/codex.deb");
            assert_eq!(to, "/tmp/stage-1/codex-desktop.deb");
        }
        other => panic!("unexpected {other:?}"),
    }
    assert!(matches!(
        installer.step(InstallAnswer::Done(Ok(()))),
        InstallRequest::LockDownPackage { path } if path == "/tmp/stage-1/codex-desktop.deb"
    ));
    assert!(matches!(
        installer.step(InstallAnswer::Done(Ok(()))),
        InstallRequest::ReadPackageName { query: PackageQuery::DebName, .. }
    ));
    assert!(matches!(
        installer.step(output("codex-desktop")),
        InstallRequest::InstalledVersion { kind: PackageKind::Deb }
    ));
}

#[test]
fn deb_install_runs_apt_on_the_staged_copy() {
    let mut installer = install_deb("/home/u/codex.deb");
    staged_deb(&mut installer);
    assert!(matches!(
        installer.step(InstallAnswer::Text(Ok("unknown".to_string()))),
        InstallRequest::FindProgram { tool: Tool::Apt }
    ));
    match installer.step(InstallAnswer::Program {
        exists: true,
        path: "/usr/bin/apt".to_string(),
    }) {
        InstallRequest::Run { command } => {
            assert_eq!(command.program, "/usr/bin/apt");
            assert_eq!(command.args, vec!["install", "-y", "./codex-desktop.deb"]);
            assert_eq!(command.current_dir.as_deref(), Some("/tmp/stage-1"));
        }
        other => panic!("unexpected {other:?}"),
    }
    let (result, remove_dir) = expect_finished(installer.step(InstallAnswer::Done(Ok(()))));
    assert_eq!(result, Ok(()));
    assert_eq!(remove_dir.as_deref(), Some("/tmp/stage-1"));
    assert!(installer.is_finished());
}

#[test]
fn deb_install_falls_back_to_dpkg_and_reports_its_failure() {
    let mut installer = install_deb("/home/u/codex.deb");
    staged_deb(&mut installer);
    installer.step(InstallAnswer::Text(Ok("unknown".to_string())));
    assert!(matches!(
        installer.step(InstallAnswer::Program { exists: false, path: "apt".to_string() }),
        InstallRequest::FindProgram { tool: Tool::Dpkg }
    ));
    match installer.step(InstallAnswer::Program {
        exists: true,
        path: "/usr/bin/dpkg".to_string(),
    }) {
        InstallRequest::Run { command } => {
            assert_eq!(command.args, vec!["-i", "--", "/tmp/stage-1/codex-desktop.deb"]);
        }
        other => panic!("unexpected {other:?}"),
    }
    let (result, _) = expect_finished(
        installer.step(InstallAnswer::Done(Err("installation command exited with exit status: 1".to_string()))),
    );
    assert_eq!(
        result,
        Err((
            Some("dpkg -i failed".to_string()),
            "installation command exited with exit status: 1".to_string()
        ))
    );
}

#[test]
fn deb_install_refuses_a_version_that_is_not_newer() {
    let mut installer = install_deb("/home/u/codex.deb");
    staged_deb(&mut installer);
    assert!(matches!(
        installer.step(InstallAnswer::Text(Ok("2026.04.02.120000".to_string()))),
        InstallRequest::ReadPackageVersion { kind: PackageKind::Deb, .. }
    ));
    assert!(matches!(
        installer.step(output("2026.04.01.090000\n")),
        InstallRequest::CompareDebVersions { candidate, installed }
            if candidate == "2026.04.01.090000" && installed == "2026.04.02.120000"
    ));
    let (result, remove_dir) = expect_finished(installer.step(InstallAnswer::Verdict(Ok(false))));
    assert_eq!(
        result,
        Err((
            None,
            "Refusing to install non-newer package version 2026.04.01.090000 over installed version 2026.04.02.120000"
                .to_string()
        ))
    );
    assert_eq!(remove_dir.as_deref(), Some("/tmp/stage-1"));
}

#[test]
fn install_refuses_a_missing_file() {
    let mut installer = install_rpm("/home/u/codex.rpm");
    installer.step(InstallAnswer::Start);
    let (result, remove_dir) = expect_finished(installer.step(InstallAnswer::Flag(false)));
    assert_eq!(
        result,
        Err((
            Some("Failed to stabilize RPM package /home/u/codex.rpm".to_string()),
            "Package path is not a file: /home/u/codex.rpm".to_string()
        ))
    );
    assert_eq!(remove_dir, None);
}

#[test]
fn install_refuses_a_foreign_package() {
    let mut installer = install_deb("/home/u/other.deb");
    installer.step(InstallAnswer::Start);
    installer.step(InstallAnswer::Flag(true));
    installer.step(InstallAnswer::Text(Ok("/home/u/other.deb".to_string())));
    let (result, _) = expect_finished(installer.step(output("other-package\n")));
    assert_eq!(
        result,
        Err((
            Some("Failed to stabilize Debian package /home/u/other.deb".to_string()),
            "Refusing to install package other-package from /home/u/other.deb; expected codex-desktop"
                .to_string()
        ))
    );
}

#[test]
fn install_refuses_a_link_to_another_package_format() {
    let mut installer = install_rpm("/home/u/latest.rpm");
    installer.step(InstallAnswer::Start);
    installer.step(InstallAnswer::Flag(true));
    let (result, _) = expect_finished(
        installer.step(InstallAnswer::Text(Ok("/home/u/codex.deb".to_string()))),
    );
    assert_eq!(
        result,
        Err((
            Some("Failed to stabilize RPM package /home/u/latest.rpm".to_string()),
            "Package format changed while resolving /home/u/latest.rpm".to_string()
        ))
    );
}

#[test]
fn rpm_install_compares_generated_versions_and_tries_dnf_then_zypper() {
    let mut installer = install_rpm("/srv/codex.rpm");
    installer.step(InstallAnswer::Start);
    installer.step(InstallAnswer::Flag(true));
    assert!(matches!(
        installer.step(InstallAnswer::Text(Ok("/srv/codex.rpm".to_string()))),
        InstallRequest::ReadPackageName { query: PackageQuery::RpmName, .. }
    ));
    installer.step(output("codex-desktop"));
    installer.step(InstallAnswer::Text(Ok("/tmp/s".to_string())));
    installer.step(InstallAnswer::Done(Ok(())));
    installer.step(InstallAnswer::Done(Ok(())));
    installer.step(output("codex-desktop"));
    assert!(matches!(
        installer.step(InstallAnswer::Text(Ok("2026.04.28.082247-12345678.fc43".to_string()))),
        InstallRequest::ReadPackageVersion { kind: PackageKind::Rpm, .. }
    ));
    assert!(matches!(
        installer.step(output("2026.04.28.140000-abcdef12.fc43\n")),
        InstallRequest::FindProgram { tool: Tool::Dnf }
    ));
    assert!(matches!(
        installer.step(InstallAnswer::Program { exists: false, path: "dnf".to_string() }),
        InstallRequest::FindProgram { tool: Tool::Zypper }
    ));
    match installer.step(InstallAnswer::Program {
        exists: true,
        path: "/usr/bin/zypper".to_string(),
    }) {
        InstallRequest::Run { command } => {
            assert_eq!(
                command.args,
                vec!["--non-interactive", "--no-gpg-checks", "install", "-y", "./codex-desktop.rpm"]
            );
            assert_eq!(command.current_dir.as_deref(), Some("/tmp/s"));
        }
        other => panic!("unexpected {other:?}"),
    }
}

#[test]
fn pacman_install_keeps_the_file_name_and_asks_vercmp() {
    let name = "codex-desktop-2026.04.02.120000-1-x86_64.pkg.tar.zst";
    let mut installer = install_pacman(&format!("/var/cache/{name}"));
    installer.step(InstallAnswer::Start);
    installer.step(InstallAnswer::Flag(true));
    installer.step(InstallAnswer::Text(Ok(format!("/var/cache/{name}"))));
    installer.step(output("codex-desktop"));
    match installer.step(InstallAnswer::Text(Ok("/tmp/p".to_string()))) {
        InstallRequest::CopyPackage { to, .. } => assert_eq!(to, format!("/tmp/p/{name}")),
        other => panic!("unexpected {other:?}"),
    }
    installer.step(InstallAnswer::Done(Ok(())));
    installer.step(InstallAnswer::Done(Ok(())));
    installer.step(output("codex-desktop"));
    assert!(matches!(
        installer.step(InstallAnswer::Text(Ok("2026.04.01.080000-1".to_string()))),
        InstallRequest::CompareWithVercmp { candidate, installed }
            if candidate == "2026.04.02.120000-1" && installed == "2026.04.01.080000-1"
    ));
    assert!(matches!(
        installer.step(InstallAnswer::Output(Ok((true, b"1\n".to_vec())))),
        InstallRequest::FindProgram { tool: Tool::Pacman }
    ));
    match installer.step(InstallAnswer::Program {
        exists: true,
        path: "/usr/bin/pacman".to_string(),
    }) {
        InstallRequest::Run { command } => assert_eq!(
            command.args,
            vec!["-U", "--noconfirm", "--", &format!("/tmp/p/{name}")]
        ),
        other => panic!("unexpected {other:?}"),
    }
}

#[test]
fn gentoo_install_reads_each_metadata_file() {
    let listing = "bundle/metadata/package-name\nbundle/metadata/category\nbundle/metadata/package-version\nbundle/metadata/distfile\n";
    let mut installer = install_gentoo("/srv/codex.gentoo.tar.zst");
    installer.step(InstallAnswer::Start);
    installer.step(InstallAnswer::Flag(true));
    assert!(matches!(
        installer.step(InstallAnswer::Text(Ok("/srv/codex.gentoo.tar.zst".to_string()))),
        InstallRequest::ListGentooArtifact { .. }
    ));
    let values = [
        ("bundle/metadata/package-name", "codex-desktop-bin"),
        ("bundle/metadata/category", "app-editors"),
        ("bundle/metadata/package-version", "2026.04.02.120000"),
        ("bundle/metadata/distfile", "codex-desktop-bin-2026.04.02.120000.tar.zst"),
    ];
    let mut next = InstallRequest::CreateStagingDir;
    for (entry, value) in values {
        match installer.step(output(listing)) {
            InstallRequest::ReadGentooEntry { entry: e, .. } => assert_eq!(e, entry),
            other => panic!("unexpected {other:?}"),
        }
        next = installer.step(output(value));
    }
    assert!(matches!(next, InstallRequest::CreateStagingDir));
}

#[test]
fn gentoo_install_refuses_a_wrong_category() {
    let listing = "metadata/package-name\nmetadata/category\n";
    let mut installer = install_gentoo("/srv/codex.gentoo.tar.zst");
    installer.step(InstallAnswer::Start);
    installer.step(InstallAnswer::Flag(true));
    installer.step(InstallAnswer::Text(Ok("/srv/codex.gentoo.tar.zst".to_string())));
    installer.step(output(listing));
    installer.step(output("codex-desktop-bin"));
    installer.step(output(listing));
    let (result, _) = expect_finished(installer.step(output("games-misc")));
    assert_eq!(
        result,
        Err((
            Some("Failed to stabilize Gentoo package /srv/codex.gentoo.tar.zst".to_string()),
            "Refusing to install Gentoo category games-misc from /srv/codex.gentoo.tar.zst; expected app-editors"
                .to_string()
        ))
    );
}

#[test]
fn an_answer_that_was_not_asked_for_ends_the_install() {
    let mut installer = install_deb("/home/u/codex.deb");
    installer.step(InstallAnswer::Start);
    let (result, _) = expect_finished(installer.step(InstallAnswer::Done(Ok(()))));
    assert!(result.is_err());
}
