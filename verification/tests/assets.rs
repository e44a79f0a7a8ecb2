use burton_update_dev::assets::{asset_file_names, asset_kind_known, default_asset};
use burton_update_dev::files::safe_file_name;
use burton_update_dev::release::{missing_artifact_message, release_asset_files, release_download_url};

#[test]
fn asset_map_covers_burton_installers() {
    assert_eq!(
        asset_file_names("zed", "linux", "x86_64"),
        Some(&["burton-linux-x86_64.tar.gz"][..])
    );
    assert!(asset_file_names("zed", "plan9", "x86_64").is_none());
    assert!(asset_file_names("theme", "linux", "x86_64").is_none());
}

#[test]
fn asset_map_covers_every_platform() {
    let cases = [
        ("zed", "linux", "aarch64", "burton-linux-aarch64.tar.gz"),
        ("zed", "macos", "x86_64", "Burton-x86_64.dmg"),
        ("zed", "macos", "aarch64", "Burton-aarch64.dmg"),
        ("zed", "windows", "x86_64", "Burton-x86_64.exe"),
        ("zed", "windows", "aarch64", "Burton-aarch64.exe"),
        ("zed-remote-server", "linux", "x86_64", "zed-remote-server-linux-x86_64.gz"),
        ("zed-remote-server", "linux", "aarch64", "zed-remote-server-linux-aarch64.gz"),
        ("zed-remote-server", "macos", "x86_64", "zed-remote-server-macos-x86_64.gz"),
        ("zed-remote-server", "macos", "aarch64", "zed-remote-server-macos-aarch64.gz"),
        ("zed-remote-server", "windows", "x86_64", "zed-remote-server-windows-x86_64.zip"),
        ("zed-remote-server", "windows", "aarch64", "zed-remote-server-windows-aarch64.zip"),
    ];
    let mut seen = std::collections::HashSet::new();
    for (_, _, _, file) in cases {
        assert!(seen.insert(file), "{file} is listed twice");
    }
    for (asset, os, arch, file) in cases {
        assert_eq!(asset_file_names(asset, os, arch), Some(&[file][..]));
        assert_eq!(safe_file_name(file), Some(file));
    }
    assert!(asset_file_names("zed", "linux", "riscv64").is_none());
    assert!(asset_file_names("Zed", "linux", "x86_64").is_none());
    assert!(asset_file_names("zed", "Linux", "x86_64").is_none());
}

#[test]
fn known_asset_kinds() {
    assert!(asset_kind_known("zed"));
    assert!(asset_kind_known("zed-remote-server"));
    assert!(!asset_kind_known("theme"));
    assert!(!asset_kind_known(""));
    assert_eq!(default_asset(), "zed");
}

#[test]
fn release_lookup_messages() {
    assert_eq!(
        release_asset_files("zed", "linux", "x86_64"),
        Ok(&["burton-linux-x86_64.tar.gz"][..])
    );
    assert_eq!(
        release_asset_files("zed", "plan9", "x86_64"),
        Err("no artifact mapping for os=plan9 arch=x86_64".to_string())
    );
    assert_eq!(
        release_asset_files("theme", "linux", "x86_64"),
        Err("unsupported asset theme".to_string())
    );
}

#[test]
fn missing_message_joins_names() {
    assert_eq!(missing_artifact_message(&["a.tar.gz"]), "missing a.tar.gz");
    assert_eq!(missing_artifact_message(&["a", "b", "c"]), "missing a or b or c");
    assert_eq!(missing_artifact_message(&[]), "missing ");
}

#[test]
fn download_url_is_under_files() {
    assert_eq!(
        release_download_url("https://updates.burton.dev", "burton-linux-x86_64.tar.gz"),
        "https://updates.burton.dev/files/burton-linux-x86_64.tar.gz"
    );
}

#[test]
fn safe_file_name_rejects_traversal() {
    assert_eq!(safe_file_name("burton-linux-x86_64.tar.gz"), Some("burton-linux-x86_64.tar.gz"));
    assert_eq!(safe_file_name(""), None);
    assert_eq!(safe_file_name("."), None);
    assert_eq!(safe_file_name(".."), None);
    assert_eq!(safe_file_name("../secret"), None);
    assert_eq!(safe_file_name("a/b"), None);
    assert_eq!(safe_file_name("a\\b"), None);
    assert_eq!(safe_file_name("a\0b"), None);
    assert_eq!(safe_file_name("...hidden"), Some("...hidden"));
    assert_eq!(safe_file_name("..."), Some("..."));
    assert_eq!(safe_file_name("1:x"), Some("1:x"));
    assert_eq!(safe_file_name("é:x"), Some("é:x"));
}
