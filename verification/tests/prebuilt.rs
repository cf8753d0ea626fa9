use codex_desktop_linux::prebuilt::{parse_checksum, APK_ASSET_NAME};

#[test]
fn parses_release_checksum() {
    let checksum = "0123456789abcdef0123456789abcdef0123456789abcdef0123456789abcdef";
    assert_eq!(
        parse_checksum(&format!("{checksum}  {APK_ASSET_NAME}\n"), APK_ASSET_NAME).unwrap(),
        checksum
    );
}

#[test]
fn rejects_checksum_for_another_asset() {
    let checksum = "0123456789abcdef0123456789abcdef0123456789abcdef0123456789abcdef";
    let error = parse_checksum(&format!("{checksum}  foreign.apk\n"), APK_ASSET_NAME)
        .expect_err("foreign checksum filenames must fail");
    assert!(error.contains("expected"));
}
