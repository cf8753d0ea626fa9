use codex_desktop_linux::commands::{
    dpkg_deb_field_command, dpkg_install_command, install_command_in_parent,
    pacman_install_command, pacman_query_name_command, pkexec_command, rpm_install_command,
    rpm_query_command, updater_binary_for_privileged_install, zypper_install_command, CommandLine,
};
use codex_desktop_linux::installed::{
    installed_package_version, is_primary_package_installed, parse_installed_version,
    parse_pacman_installed_version, SystemProbe,
};
use codex_desktop_linux::package::{
    detect_package_kind, os_release_matches, trim_os_release_value, PackageDetection, PackageKind,
};
use codex_desktop_linux::staging::{
    ensure_codex_package, ensure_package_name, pacman_package_version, stable_file_name,
};
use codex_desktop_linux::version::{
    compare_generated_package_versions, generated_package_version_is_newer,
};

fn command_args(command: &CommandLine) -> Vec<String> {
    command.args.clone()
}

fn pkexec_args(current_exe: &str, package_path: &str) -> Vec<String> {
    let installed = std::path::Path::new("/usr/bin/codex-update-manager").is_file();
    command_args(&pkexec_command(installed, current_exe, package_path))
}

#[test]
fn builds_pkexec_command_for_privileged_deb_install() {
    let args = pkexec_args("/usr/bin/codex-update-manager", "/tmp/update.deb");
    assert_eq!(
        args,
        vec![
            "--disable-internal-agent",
            "/usr/bin/codex-update-manager",
            "install-deb",
            "--path",
            "/tmp/update.deb"
        ]
    );
}

#[test]
fn builds_pkexec_command_for_privileged_rpm_install() {
    let args = pkexec_args("/usr/bin/codex-update-manager", "/tmp/update.rpm");
    assert_eq!(
        args,
        vec![
            "--disable-internal-agent",
            "/usr/bin/codex-update-manager",
            "install-rpm",
            "--path",
            "/tmp/update.rpm"
        ]
    );
}

#[test]
fn prefers_installed_updater_path_for_pkexec() {
    let installed = std::path::Path::new("/usr/bin/codex-update-manager").is_file();
    let selected = updater_binary_for_privileged_install(installed, "/tmp/codex-update-manager-old");
    let expected = if installed {
        "/usr/bin/codex-update-manager"
    } else {
        "/tmp/codex-update-manager-old"
    };
    assert_eq!(selected, expected);
}

#[test]
fn builds_local_apt_install_command() {
    let command = install_command_in_parent("/usr/bin/apt", "/tmp/build/codex.deb").unwrap();
    assert!(command.program.ends_with("apt"));
    assert_eq!(command_args(&command), vec!["install", "-y", "./codex.deb"]);
    assert_eq!(command.current_dir.as_deref(), Some("/tmp/build"));
}

#[test]
fn builds_local_dnf_install_command() {
    let command = install_command_in_parent("/usr/bin/dnf", "/tmp/build/codex.rpm").unwrap();
    let program = command.program.clone();
    assert!(program.ends_with("dnf") || program.ends_with("dnf5"));
    assert_eq!(command_args(&command), vec!["install", "-y", "./codex.rpm"]);
}

#[test]
fn builds_local_zypper_install_command() {
    let command = zypper_install_command("/usr/bin/zypper", "/tmp/build/codex.rpm").unwrap();
    assert!(command.program.ends_with("zypper"));
    assert_eq!(
        command_args(&command),
        vec!["--non-interactive", "--no-gpg-checks", "install", "-y", "./codex.rpm"]
    );
}

#[test]
fn direct_install_commands_stop_option_parsing() {
    assert_eq!(
        command_args(&dpkg_install_command("/usr/bin/dpkg", "-evil.deb")),
        vec!["-i", "--", "-evil.deb"]
    );
    assert_eq!(
        command_args(&rpm_install_command("/usr/bin/rpm", "-evil.rpm")),
        vec!["-Uvh", "--", "-evil.rpm"]
    );
    assert_eq!(
        command_args(&pacman_install_command("/usr/bin/pacman", "-evil.pkg.tar.zst")),
        vec!["-U", "--noconfirm", "--", "-evil.pkg.tar.zst"]
    );
}

#[test]
fn metadata_commands_stop_option_parsing_before_package_path() {
    assert_eq!(
        command_args(&dpkg_deb_field_command("/usr/bin/dpkg-deb", "-evil.deb", "Package")),
        vec!["-f", "--", "-evil.deb", "Package"]
    );
    assert_eq!(
        command_args(&rpm_query_command("/usr/bin/rpm", "-evil.rpm", "%{NAME}")),
        vec!["-qp", "--queryformat", "%{NAME}", "--", "-evil.rpm"]
    );
    assert_eq!(
        command_args(&pacman_query_name_command("/usr/bin/pacman", "-evil.pkg.tar.zst")),
        vec!["-Qqp", "--", "-evil.pkg.tar.zst"]
    );
}

#[test]
fn stable_file_name_uses_safe_names_for_deb_and_rpm() {
    assert_eq!(
        stable_file_name(PackageKind::Deb, "-evil.deb").unwrap(),
        "codex-desktop.deb"
    );
    assert_eq!(
        stable_file_name(PackageKind::Rpm, "-evil.rpm").unwrap(),
        "codex-desktop.rpm"
    );
    assert_eq!(
        stable_file_name(PackageKind::Gentoo, "-evil.gentoo.tar.zst").unwrap(),
        "codex-desktop.gentoo.tar.zst"
    );
    assert_eq!(
        stable_file_name(
            PackageKind::Pacman,
            "/tmp/codex-desktop-2026.03.30-1-x86_64.pkg.tar.zst"
        )
        .unwrap(),
        "codex-desktop-2026.03.30-1-x86_64.pkg.tar.zst"
    );
}

#[test]
fn package_kind_from_path_detects_rpm() {
    assert_eq!(PackageKind::from_path("/tmp/codex.rpm"), PackageKind::Rpm);
}

#[test]
fn package_kind_from_path_detects_deb() {
    assert_eq!(PackageKind::from_path("/tmp/codex.deb"), PackageKind::Deb);
}

#[test]
fn package_kind_from_path_detects_pacman_zst() {
    assert_eq!(
        PackageKind::from_path("/tmp/codex-desktop-2026.03.30-1-x86_64.pkg.tar.zst"),
        PackageKind::Pacman
    );
}

#[test]
fn package_kind_from_path_detects_gentoo_before_generic_tar_zst() {
    assert_eq!(
        PackageKind::from_path("/tmp/codex-desktop-2026.03.30-amd64.gentoo.tar.zst"),
        PackageKind::Gentoo
    );
}

#[test]
fn package_kind_from_path_detects_pacman_xz() {
    assert_eq!(
        PackageKind::from_path("/tmp/codex-desktop-2026.03.30-1-x86_64.pkg.tar.xz"),
        PackageKind::Pacman
    );
}

#[test]
fn detection_prefers_arch_os_release_even_if_rpm_command_exists() {
    assert_eq!(
        detect_package_kind(PackageDetection {
            has_pacman: true,
            has_rpm: true,
            pacman_installed: true,
            os_release: Some(("arch".to_string(), "".to_string())),
            ..Default::default()
        }),
        PackageKind::Pacman
    );
}

#[test]
fn detection_prefers_fedora_os_release_even_if_deb_package_is_installed() {
    assert_eq!(
        detect_package_kind(PackageDetection {
            has_dpkg: true,
            has_rpm: true,
            deb_installed: true,
            os_release: Some(("fedora".to_string(), "rhel".to_string())),
            ..Default::default()
        }),
        PackageKind::Rpm
    );
}

#[test]
fn detection_prefers_gentoo_os_release() {
    assert_eq!(
        detect_package_kind(PackageDetection {
            has_pacman: true,
            has_emerge: true,
            has_dpkg: true,
            has_rpm: true,
            os_release: Some(("gentoo".to_string(), "".to_string())),
            ..Default::default()
        }),
        PackageKind::Gentoo
    );
}

#[test]
fn detection_uses_installed_gentoo_package_before_tool_fallbacks() {
    assert_eq!(
        detect_package_kind(PackageDetection {
            has_dpkg: true,
            has_rpm: true,
            gentoo_installed: true,
            ..Default::default()
        }),
        PackageKind::Gentoo
    );
}

#[test]
fn detection_uses_arch_os_release_when_nothing_is_installed() {
    assert_eq!(
        detect_package_kind(PackageDetection {
            has_pacman: true,
            has_rpm: true,
            os_release: Some(("arch".to_string(), "".to_string())),
            ..Default::default()
        }),
        PackageKind::Pacman
    );
}

#[test]
fn detection_uses_debian_os_release_before_rpm_command_presence() {
    assert_eq!(
        detect_package_kind(PackageDetection {
            has_dpkg: true,
            has_rpm: true,
            os_release: Some(("ubuntu".to_string(), "debian".to_string())),
            ..Default::default()
        }),
        PackageKind::Deb
    );
}

#[test]
fn detection_uses_rpm_os_release_before_pacman_command_presence() {
    assert_eq!(
        detect_package_kind(PackageDetection {
            has_pacman: true,
            has_rpm: true,
            os_release: Some(("fedora".to_string(), "rhel".to_string())),
            ..Default::default()
        }),
        PackageKind::Rpm
    );
}

#[test]
fn trims_quoted_os_release_values() {
    assert_eq!(trim_os_release_value("\"arch\""), "arch");
    assert_eq!(trim_os_release_value("'debian ubuntu'"), "debian ubuntu");
}

#[test]
fn matches_expected_os_release_tokens() {
    assert!(os_release_matches(&["ubuntu debian", ""], &["debian"]));
    assert!(!os_release_matches(&["ubuntu", ""], &["fedora"]));
}

#[test]
fn builds_pkexec_command_for_privileged_pacman_install() {
    let args = pkexec_args("/usr/bin/codex-update-manager", "/tmp/update.pkg.tar.zst");
    assert_eq!(
        args,
        vec![
            "--disable-internal-agent",
            "/usr/bin/codex-update-manager",
            "install-pacman",
            "--path",
            "/tmp/update.pkg.tar.zst"
        ]
    );
}

#[test]
fn builds_pkexec_command_for_privileged_gentoo_install() {
    let args = pkexec_args("/usr/bin/codex-update-manager", "/tmp/update.gentoo.tar.zst");
    assert_eq!(
        args,
        vec![
            "--disable-internal-agent",
            "/usr/bin/codex-update-manager",
            "install-gentoo",
            "--path",
            "/tmp/update.gentoo.tar.zst"
        ]
    );
}

#[test]
fn compares_generated_package_versions_by_timestamp() {
    assert!(generated_package_version_is_newer(
        "2026.04.28.140000-abcdef12.fc43",
        "2026.04.28.082247-12345678.fc43"
    ));
    assert!(!generated_package_version_is_newer(
        "2026.04.28.082247-12345678.fc43",
        "2026.04.28.140000-abcdef12.fc43"
    ));
    assert!(!generated_package_version_is_newer(
        "2026.04.28.140000-abcdef12.fc43",
        "2026.04.28.140000-abcdef12.fc43"
    ));
}

#[test]
fn generated_package_version_comparison_rejects_non_generated_versions() {
    assert_eq!(
        compare_generated_package_versions("0.4.2", "2026.04.28.082247-12345678.fc43"),
        None
    );
    assert!(!generated_package_version_is_newer(
        "0.4.2",
        "2026.04.28.082247-12345678.fc43"
    ));
}

#[test]
fn install_commands_require_a_file_name() {
    let deb_error =
        install_command_in_parent("/usr/bin/apt", "/").expect_err("root is not a package");
    let rpm_error =
        install_command_in_parent("/usr/bin/dnf", "/").expect_err("root is not a package");
    let zypper_error =
        zypper_install_command("/usr/bin/zypper", "/").expect_err("root is not a package");

    assert!(deb_error.contains("apt package path has no"));
    assert!(rpm_error.contains("dnf package path has no"));
    assert!(zypper_error.contains("zypper package path has no"));
}

#[test]
fn empty_installed_version_output_is_reported_as_unknown() {
    assert_eq!(parse_installed_version(Vec::new()), "unknown");
}

#[test]
fn parses_pacman_installed_version_output() {
    assert_eq!(
        parse_pacman_installed_version(b"codex-desktop 2026.04.02.120000-1\n".to_vec()),
        "2026.04.02.120000-1"
    );
}

#[test]
fn parses_pacman_package_version_from_filename() {
    assert_eq!(
        pacman_package_version("/tmp/codex-desktop-2026.04.02.120000-1-x86_64.pkg.tar.zst")
            .unwrap(),
        "2026.04.02.120000-1"
    );
}

#[test]
fn rejects_mismatched_package_name() {
    let error = ensure_package_name("not-codex", "/tmp/not-codex.deb")
        .expect_err("foreign package names must be rejected");

    assert!(error.contains("expected codex-desktop"));
}

#[test]
fn accepts_codex_package_name() {
    ensure_package_name("codex-desktop", "/tmp/codex-desktop.deb").unwrap();
}

#[test]
fn rejects_non_codex_pacman_package_filename() {
    let error = ensure_codex_package("/tmp/not-codex-2026.04.02.120000-1-x86_64.pkg.tar.zst")
        .expect_err("foreign pacman packages must be rejected");

    assert!(error.contains("codex-desktop-"));
}

fn arch_probe(pacman_version: &str) -> SystemProbe {
    SystemProbe {
        has_pacman: true,
        has_emerge: false,
        has_dpkg: true,
        has_rpm: false,
        deb_version: "2026.01.01.000000+aaaaaaaa".to_string(),
        rpm_version: "unknown".to_string(),
        pacman_version: pacman_version.to_string(),
        gentoo_version: "unknown".to_string(),
        os_release: Some(("arch".to_string(), String::new())),
    }
}

#[test]
fn installed_version_comes_from_the_detected_package_database() {
    let probe = arch_probe("2026.04.02.120000-1");
    assert!(probe.versions_reported());
    assert_eq!(installed_package_version(&probe), "2026.04.02.120000-1");
    assert!(is_primary_package_installed(&probe));

    let missing = arch_probe("unknown");
    assert_eq!(installed_package_version(&missing), "unknown");
    assert!(!is_primary_package_installed(&missing));
}

#[test]
fn probe_with_an_empty_version_is_not_well_formed() {
    assert!(!arch_probe("").versions_reported());
    assert_eq!(parse_installed_version(b"  \n".to_vec()), "unknown");
}
