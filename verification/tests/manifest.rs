use burton_update_dev::manifest::crate_version;

#[test]
fn crate_version_reads_zed_package() {
    let text = "[package]\nname = \"zed\"\ndescription = \"The fast, collaborative code editor.\"\nedition.workspace = true\nversion = \"1.22.1\"\npublish.workspace = true\n\n[dependencies]\nversion = \"9.9.9\"\n";
    let version = crate_version(text).expect("version");
    assert!(
        version.chars().next().is_some_and(|ch| ch.is_ascii_digit()),
        "unexpected version {version}"
    );
    assert_eq!(version, "1.22.1");
}

#[test]
fn crate_version_line_forms() {
    assert_eq!(crate_version("  version   =   \"0.1.0\"  \r\n"), Some("0.1.0"));
    assert_eq!(crate_version("version=\"2\""), Some("2"));
    assert_eq!(crate_version("version = \"unterminated"), Some("unterminated"));
    assert_eq!(crate_version("version = \"a\"b\""), Some("a"));
    assert_eq!(crate_version("version.workspace = true\nversion = \"3\""), Some("3"));
    assert_eq!(crate_version("versions = \"1\"\nversion = 1\nversion =\n"), None);
    assert_eq!(crate_version("rust-version = \"1.80\""), None);
    assert_eq!(crate_version(""), None);
}
