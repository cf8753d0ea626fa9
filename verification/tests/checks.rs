use codex_desktop_linux::assets::{extension_id_from_args, is_extension_id, sanitize_asset_file_name, AssetLedger};
use codex_desktop_linux::frame::{encode_frame, frame_length};
use codex_desktop_linux::gentoo::{
    check_artifact_atom, check_gentoo_distfile, choose_artifact_root, distdir_from_portageq,
    gentoo_artifact_entry, gentoo_repos_conf, latest_gentoo_version,
};
use codex_desktop_linux::handshake::proxy_headers_complete;
use codex_desktop_linux::prebuilt::{hex_lower, parse_checksum, sha256_hex, verify_apk_digest};
use codex_desktop_linux::rollout::{
    is_rollout_file_name, line_marks_turn_complete, observed_turn_key, session_turn,
    turn_ended_id,
};
use codex_desktop_linux::assets::decode_asset_chunk;
use codex_desktop_linux::router::{ChromeAction, ClientAction, MessageKind, Router};
use codex_desktop_linux::runtime::{
    missing_runtime_config, normalize_channel, normalize_proxy_host, plan_app_server,
    runtime_method, unsupported_runtime_method, validate_runtime_constraints, AppServerPlan,
    AppServerStatus, RuntimeConstraints, RuntimeMethod,
};
use codex_desktop_linux::staging::{check_kind_unchanged, vercmp_says_newer, StagingPhase};
use codex_desktop_linux::package::PackageKind;
use codex_desktop_linux::socket::check_socket_dir;
use codex_desktop_linux::handshake::rewrite_proxy_websocket_handshake;

const SHA: &str = "0123456789abcdef0123456789abcdef0123456789abcdef0123456789abcdef";
const APK: &str = "codex-desktop-linux-postmarketos-aarch64.apk";

#[test]
fn checksum_accepts_a_star_and_upper_case_digits() {
    let upper = SHA.to_ascii_uppercase();
    let content = format!("\n  \r\n{upper} *{APK}\r\nignored line\n");
    assert_eq!(parse_checksum(&content, APK).unwrap(), SHA);
}

#[test]
fn checksum_errors_name_each_problem() {
    assert_eq!(parse_checksum(" \n\n", APK).unwrap_err(), "APK checksum response is empty");
    assert_eq!(parse_checksum(SHA, APK).unwrap_err(), "APK checksum filename is missing");
    assert_eq!(
        parse_checksum(&format!("{SHA} {APK} extra"), APK).unwrap_err(),
        "APK checksum response contains unexpected fields"
    );
    assert_eq!(
        parse_checksum(&format!("abc {APK}"), APK).unwrap_err(),
        "APK checksum is not a SHA-256 value"
    );
    assert_eq!(
        parse_checksum(&format!("{SHA}  foreign.apk"), APK).unwrap_err(),
        format!("APK checksum names foreign.apk, expected {APK}")
    );
}

#[test]
fn digests_are_written_in_lower_case_hex() {
    assert_eq!(hex_lower(&[0x00, 0x0f, 0xa0, 0xff]), "000fa0ff");
    assert_eq!(
        sha256_hex(b"hello"),
        "2cf24dba5fb0a30e26e83b2ac5b9e29e1b161e5c1fa7425e73043362938b9824"
    );
}

#[test]
fn download_digest_must_match_the_published_checksum() {
    let good = "2cf24dba5fb0a30e26e83b2ac5b9e29e1b161e5c1fa7425e73043362938b9824";
    assert_eq!(verify_apk_digest(b"hello", good).unwrap(), good);
    let error = verify_apk_digest(b"hello!", good).unwrap_err();
    assert!(error.starts_with(&format!("Downloaded APK SHA-256 mismatch: expected {good}, got ")));
}

#[test]
fn frames_round_trip_in_both_byte_orders() {
    for little_endian in [true, false] {
        let body = b"{\"id\":1}".to_vec();
        let frame = encode_frame(&body, little_endian).unwrap();
        assert_eq!(frame.len(), body.len() + 4);
        let header: [u8; 4] = frame[..4].try_into().unwrap();
        assert_eq!(frame_length(&header, little_endian) as usize, body.len());
        assert_eq!(&frame[4..], &body[..]);
    }
    let frame = encode_frame(&[7u8; 258], true).unwrap();
    assert_eq!(&frame[..4], &[2, 1, 0, 0]);
    let frame = encode_frame(&[7u8; 258], false).unwrap();
    assert_eq!(&frame[..4], &[0, 0, 1, 2]);
}

#[test]
fn proxy_headers_are_read_until_the_blank_line() {
    assert_eq!(proxy_headers_complete(b"GET / HTTP/1.1\r\nHost: x\r\n"), Ok(false));
    assert_eq!(proxy_headers_complete(b"GET / HTTP/1.1\r\nHost: x\r\n\r\n"), Ok(true));
    let long = vec![b'a'; 65536];
    assert_eq!(
        proxy_headers_complete(&long).unwrap_err(),
        "app-server proxy HTTP headers exceeded 64KiB"
    );
}

#[test]
fn extension_ids_are_thirty_two_letters_from_a_to_p() {
    assert!(is_extension_id("abcdefghijklmnopabcdefghijklmnop"));
    assert!(!is_extension_id("abcdefghijklmnopabcdefghijklmnoq"));
    assert!(!is_extension_id("abcdefghijklmnop"));
    let args = vec![
        "--flag".to_string(),
        "chrome-extension://short/".to_string(),
        "chrome-extension://abcdefghijklmnopabcdefghijklmnop/".to_string(),
    ];
    assert_eq!(
        extension_id_from_args(&args).as_deref(),
        Some("abcdefghijklmnopabcdefghijklmnop")
    );
    assert_eq!(extension_id_from_args(&args[..2]), None);
}

#[test]
fn asset_names_are_sanitized() {
    assert_eq!(sanitize_asset_file_name("../../report?.txt"), "report_.txt");
    assert_eq!(sanitize_asset_file_name("/"), "asset.bin");
    assert_eq!(sanitize_asset_file_name(".."), "asset.bin");
    assert_eq!(sanitize_asset_file_name("naïve photo.png"), "na_ve_photo.png");
    assert_eq!(sanitize_asset_file_name(&"x".repeat(200)).len(), 160);
}

#[test]
fn assets_have_a_size_limit() {
    let mut ledger = AssetLedger::new(1);
    let (id, path) = ledger.reserve("/tmp/assets/", "a.bin");
    assert_eq!(path, "/tmp/assets/linux-1-1-a.bin");
    ledger.register(id.clone(), path);
    ledger.record_written(&id, 268435456 - 1);
    assert_eq!(ledger.check_append(&id, 1).unwrap(), 268435456);
    let error = ledger.check_append(&id, 2).unwrap_err();
    assert_eq!(error.message, "Browser asset exceeds the 256 MiB safety limit");
    assert_eq!(error.error_type, "app_server_runtime_error");
    let (next, _) = ledger.reserve("/tmp/assets", "b.bin");
    assert_eq!(next, "linux-1-2");
}

#[test]
fn runtime_constraints_are_checked_in_order() {
    let constraints = RuntimeConstraints {
        required_native_host_protocol_version: Some(3),
        required_app_server_protocol_version: Some(9),
        extension_id: None,
        extension_build_channel: None,
    };
    let error = validate_runtime_constraints(None, None, Some(&constraints)).unwrap_err();
    assert_eq!(error.error_type, "version_mismatch");
    assert_eq!(error.message, "Native host protocol 3 is required, but this host supports 2");

    let constraints = RuntimeConstraints {
        required_native_host_protocol_version: Some(2),
        required_app_server_protocol_version: Some(1),
        extension_id: None,
        extension_build_channel: None,
    };
    let error = validate_runtime_constraints(None, None, Some(&constraints)).unwrap_err();
    assert_eq!(error.message, "App-server protocol 1 is required, but this host supports 2");

    let constraints = RuntimeConstraints {
        required_native_host_protocol_version: Some(2),
        required_app_server_protocol_version: Some(2),
        extension_id: Some("other".to_string()),
        extension_build_channel: Some("beta".to_string()),
    };
    let error = validate_runtime_constraints(Some("mine"), Some("stable"), Some(&constraints)).unwrap_err();
    assert_eq!(error.error_type, "no_matching_codex_install");
    assert_eq!(error.message, "The connected extension does not match this native host manifest");
    let error = validate_runtime_constraints(None, Some("stable"), Some(&constraints)).unwrap_err();
    assert_eq!(error.message, "Extension channel beta does not match native host channel stable");
    assert!(validate_runtime_constraints(None, None, Some(&constraints)).is_ok());
    assert!(validate_runtime_constraints(Some("mine"), Some("stable"), None).is_ok());
}

#[test]
fn runtime_methods_are_recognized() {
    assert_eq!(runtime_method("codexRuntime/hello"), RuntimeMethod::Hello);
    assert_eq!(runtime_method("codexRuntime/tabContextAsset/abort"), RuntimeMethod::RemoveAsset);
    assert_eq!(runtime_method("codexRuntime/other"), RuntimeMethod::Unsupported);
    assert_eq!(
        unsupported_runtime_method("x").message,
        "Unsupported native runtime method: x"
    );
    assert_eq!(
        missing_runtime_config(None).message,
        "Missing native host runtime configuration: extension-host-config.json"
    );
    assert_eq!(missing_runtime_config(Some("broken".to_string())).error_type, "required_path_missing");
}

#[test]
fn app_server_is_reused_only_while_it_and_its_proxy_run() {
    let running = AppServerStatus { child_running: true, proxy_running: true };
    let half = AppServerStatus { child_running: true, proxy_running: false };
    assert_eq!(plan_app_server(false, Some(&running)), AppServerPlan::Reuse);
    assert_eq!(plan_app_server(true, Some(&running)), AppServerPlan::Replace);
    assert_eq!(plan_app_server(false, Some(&half)), AppServerPlan::Replace);
    assert_eq!(plan_app_server(false, None), AppServerPlan::Start);
}

#[test]
fn config_values_are_trimmed() {
    assert_eq!(normalize_proxy_host("  127.0.0.1 ").unwrap(), "127.0.0.1");
    assert_eq!(normalize_proxy_host(" \t").unwrap_err(), "proxyHost must not be empty");
    assert_eq!(normalize_channel(Some(" beta ".to_string())).as_deref(), Some("beta"));
    assert_eq!(normalize_channel(Some("   ".to_string())), None);
}

#[test]
fn turn_end_records_are_recognized() {
    let turn = r#"{"type":"turn","kind":"completed","turn_id":"t-1"}"#;
    assert!(line_marks_turn_complete(turn, "t-1"));
    assert!(!line_marks_turn_complete(turn, "t-2"));
    assert!(!line_marks_turn_complete(r#"{"type":"turn","kind":"started","turn_id":"t-1"}"#, "t-1"));
    assert!(line_marks_turn_complete(r#"{"type":"task_complete","turn_id":"t-1"}"#, "t-1"));
    assert!(!line_marks_turn_complete(
        r#"{"type":"task_complete","turn_id":"t-1","payload":{"type":"other"}}"#,
        "t-1"
    ));
    assert!(!line_marks_turn_complete("not json", "t-1"));
    assert_eq!(session_turn(Some(" s "), Some("")), None);
    assert_eq!(observed_turn_key("s", "t"), "s\nt");
    assert_eq!(turn_ended_id("s", "t"), "native-turn-ended:s:t");
    assert!(is_rollout_file_name("rollout-2026-session-1.jsonl", "session-1"));
    assert!(!is_rollout_file_name("rollout-2026-session-1.txt", "session-1"));
}

#[test]
fn asset_chunks_are_base64() {
    assert_eq!(decode_asset_chunk("aGVsbG8=").unwrap(), b"hello".to_vec());
    let error = decode_asset_chunk("aGVsbG8").unwrap_err();
    assert!(error.message.starts_with("Invalid base64 browser asset chunk: "));
    assert_eq!(error.error_type, "app_server_runtime_error");
}

#[test]
fn gentoo_metadata_entries_and_versions() {
    let listing = "bundle/\nbundle/metadata/atom\r\nbundle/metadata/category\n";
    assert_eq!(
        gentoo_artifact_entry(listing, "metadata/category").as_deref(),
        Some("bundle/metadata/category")
    );
    assert_eq!(
        gentoo_artifact_entry(listing, "metadata/atom").as_deref(),
        Some("bundle/metadata/atom")
    );
    assert_eq!(gentoo_artifact_entry(listing, "metadata/distfile"), None);
    assert!(check_gentoo_distfile("codex-desktop-bin-1.tar.zst", "1", "/a").is_ok());
    assert!(check_artifact_atom("=app-editors/codex-desktop-bin-1", "1").is_ok());
    assert_eq!(
        gentoo_repos_conf("codex-desktop-linux", "/var/db/repos/codex-desktop-linux"),
        "[codex-desktop-linux]\nlocation = /var/db/repos/codex-desktop-linux\nmasters = gentoo\nauto-sync = no\n"
    );
    assert_eq!(distdir_from_portageq(true, b" /srv/distfiles\n"), "/srv/distfiles");
    assert_eq!(distdir_from_portageq(false, b"/srv"), "/var/cache/distfiles");
}

#[test]
fn parses_gentoo_installed_version_from_vdb() {
    let names = vec![
        "codex-desktop-bin-2026.04.02.120000".to_string(),
        "other-1.0".to_string(),
        "codex-desktop-bin-2026.04.03.090000".to_string(),
        "codex-desktop-bin-".to_string(),
    ];
    assert_eq!(latest_gentoo_version(&names), "2026.04.03.090000");
    assert_eq!(latest_gentoo_version(&names[1..2]), "unknown");
}

#[test]
fn vercmp_output_is_read_as_a_signed_number() {
    assert_eq!(vercmp_says_newer(b"1\n".to_vec()), Ok(true));
    assert_eq!(vercmp_says_newer(b"-1".to_vec()), Ok(false));
    assert_eq!(vercmp_says_newer(b"0".to_vec()), Ok(false));
    assert_eq!(
        vercmp_says_newer(b"newer".to_vec()).unwrap_err(),
        "vercmp returned an invalid comparison value"
    );
    assert_eq!(
        vercmp_says_newer(vec![0xff]).unwrap_err(),
        "vercmp returned a non-UTF8 response"
    );
}

#[test]
fn package_format_must_not_change_while_staging() {
    assert!(check_kind_unchanged(PackageKind::Deb, PackageKind::Deb, StagingPhase::Resolving, "/a").is_ok());
    assert_eq!(
        check_kind_unchanged(PackageKind::Deb, PackageKind::Rpm, StagingPhase::Stabilizing, "/a.deb")
            .unwrap_err(),
        "Package format changed while stabilizing /a.deb"
    );
}

#[test]
fn client_request_round_trip_restores_the_client_id() {
    let mut router: Router<u32> = Router::new(5);
    let (client, _) = router.replace_with_client();
    let forwarded = router.handle_client_message(
        client,
        MessageKind::Request { id: 77, method: "getTabs".to_string() },
    );
    let chrome_id = match forwarded {
        ClientAction::ForwardRequest { chrome_id } => chrome_id,
        other => panic!("unexpected {other:?}"),
    };
    assert_eq!(chrome_id, "linux-5-1");
    let back = router.handle_chrome_message(
        MessageKind::Response { id: 0, id_str: Some(chrome_id.clone()) },
        false,
    );
    assert!(matches!(back, ChromeAction::ForwardToClient { client_id, id: 77 } if client_id == client));
    let again = router.handle_chrome_message(
        MessageKind::Response { id: 0, id_str: Some(chrome_id) },
        false,
    );
    assert!(matches!(again, ChromeAction::Ignore));
}

#[test]
fn chrome_request_round_trip_restores_the_chrome_id() {
    let mut router: Router<u32> = Router::new(5);
    let (client, _) = router.replace_with_client();
    let forwarded = router.handle_chrome_message(
        MessageKind::Request { id: 9, method: "openTab".to_string() },
        false,
    );
    let key = match forwarded {
        ChromeAction::ForwardRequest { client_id, client_request_id } => {
            assert_eq!(client_id, client);
            client_request_id
        }
        other => panic!("unexpected {other:?}"),
    };
    assert_eq!(key, "chrome-5-1");
    let back = router.handle_client_message(client, MessageKind::Response { id: 0, id_str: Some(key) });
    assert!(matches!(back, ClientAction::ForwardToChrome { replace_id: Some(9) }));
    let runtime = router.handle_chrome_message(
        MessageKind::Request { id: 1, method: "codexRuntime/hello".to_string() },
        false,
    );
    assert!(matches!(runtime, ChromeAction::RuntimeRequest));
}

#[test]
fn a_client_answer_from_another_client_is_ignored() {
    let mut router: Router<u32> = Router::new(5);
    let (first, _) = router.replace_with_client();
    let forwarded = router.handle_chrome_message(
        MessageKind::Request { id: 9, method: "openTab".to_string() },
        false,
    );
    let key = match forwarded {
        ChromeAction::ForwardRequest { client_request_id, .. } => client_request_id,
        other => panic!("unexpected {other:?}"),
    };
    router.remove_client(first);
    assert!(!router.has_pending_client_request(&key));
    let notification = router.handle_chrome_message(MessageKind::Notification, false);
    assert!(matches!(notification, ChromeAction::Broadcast));
    let refused = router.handle_chrome_message(
        MessageKind::Request { id: 3, method: "openTab".to_string() },
        false,
    );
    assert!(matches!(refused, ChromeAction::RouteError { .. }));
}

#[test]
fn socket_directory_must_belong_to_the_host_user() {
    assert_eq!(check_socket_dir(true, 1000, 1000, 0o40700, "/tmp/d"), Ok(false));
    assert_eq!(check_socket_dir(true, 1000, 1000, 0o40755, "/tmp/d"), Ok(true));
    assert_eq!(
        check_socket_dir(true, 0, 1000, 0o40700, "/tmp/d").unwrap_err(),
        "unix socket directory is owned by uid 0, expected 1000: /tmp/d"
    );
    assert_eq!(
        check_socket_dir(false, 1000, 1000, 0o700, "/tmp/d").unwrap_err(),
        "unix socket directory path is not a directory: /tmp/d"
    );
}

#[test]
fn handshake_keeps_headers_in_order_and_needs_an_extension_for_an_origin() {
    let request = "GET /ws HTTP/1.1\r\nUpgrade: WebSocket\r\nHost: h\r\nConnection: upgrade\r\nSec-WebSocket-Key: k\r\n\r\nrest";
    let forwarded = rewrite_proxy_websocket_handshake(request.as_bytes(), None).unwrap();
    assert_eq!(String::from_utf8(forwarded).unwrap(), request);
    let with_origin = "GET / HTTP/1.1\r\nOrigin: chrome-extension://x\r\nHost: h\r\nConnection: Upgrade\r\nUpgrade: websocket\r\nSec-WebSocket-Key: k\r\n\r\n";
    assert_eq!(
        rewrite_proxy_websocket_handshake(with_origin.as_bytes(), None).unwrap_err(),
        "app-server proxy cannot accept a browser Origin without an extension id"
    );
    let forwarded =
        rewrite_proxy_websocket_handshake(with_origin.as_bytes(), Some("chrome-extension://x")).unwrap();
    assert_eq!(
        String::from_utf8(forwarded).unwrap(),
        "GET / HTTP/1.1\r\nHost: h\r\nConnection: Upgrade\r\nUpgrade: websocket\r\nSec-WebSocket-Key: k\r\n\r\n"
    );
}

#[test]
fn gentoo_artifacts_have_exactly_one_bundle_root() {
    assert_eq!(
        choose_artifact_root("/tmp/x".to_string(), true, vec!["/tmp/x/a".to_string()]).unwrap(),
        "/tmp/x"
    );
    assert_eq!(
        choose_artifact_root("/tmp/x".to_string(), false, vec!["/tmp/x/a".to_string()]).unwrap(),
        "/tmp/x/a"
    );
    assert_eq!(
        choose_artifact_root("/tmp/x".to_string(), false, Vec::new()).unwrap_err(),
        "Gentoo artifact must contain exactly one bundle root with metadata/package-name"
    );
}
