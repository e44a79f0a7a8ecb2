use burton_update_dev::origin::{first_forwarded_value, normalize_public_url, public_origin};

#[test]
fn public_origin_prefers_configured_url() {
    assert_eq!(
        public_origin(
            Some("https://updates.burton.dev/"),
            Some("http"),
            Some("127.0.0.1:4180"),
            Some("localhost"),
        ),
        "https://updates.burton.dev"
    );
}

#[test]
fn public_origin_uses_forwarded_headers() {
    assert_eq!(
        public_origin(
            None,
            Some("https, http"),
            Some("updates.burton.dev"),
            Some("127.0.0.1:4180"),
        ),
        "https://updates.burton.dev"
    );
}

#[test]
fn public_origin_falls_back_to_host() {
    assert_eq!(
        public_origin(None, None, None, Some("127.0.0.1:4180")),
        "http://127.0.0.1:4180"
    );
}

#[test]
fn public_origin_defaults_without_headers() {
    assert_eq!(public_origin(None, None, None, None), "http://127.0.0.1");
    assert_eq!(public_origin(Some(""), Some(""), Some(""), Some("")), "http://127.0.0.1");
}

#[test]
fn public_origin_skips_blank_forwarded_entries() {
    assert_eq!(
        public_origin(None, Some(" , https"), Some(",, a.example ,b"), Some("c")),
        "https://a.example"
    );
    assert_eq!(public_origin(None, Some(" , "), Some(" "), Some("h:1")), "http://h:1");
}

#[test]
fn public_origin_strips_every_trailing_slash() {
    assert_eq!(public_origin(Some("https://x.dev///"), None, None, None), "https://x.dev");
    assert_eq!(public_origin(Some("///"), None, None, Some("h")), "");
}

#[test]
fn first_forwarded_value_trims_unicode_whitespace() {
    assert_eq!(first_forwarded_value(Some("\u{3000} proxy \t, other")), Some("proxy"));
    assert_eq!(first_forwarded_value(Some("a b, c")), Some("a b"));
    assert_eq!(first_forwarded_value(Some(" , ,")), None);
    assert_eq!(first_forwarded_value(Some("")), None);
    assert_eq!(first_forwarded_value(None), None);
}

#[test]
fn normalized_public_url_keeps_origin() {
    let stored = normalize_public_url(Some("https://updates.burton.dev//".to_string()));
    assert_eq!(stored.as_deref(), Some("https://updates.burton.dev"));
    assert_eq!(
        public_origin(stored.as_deref(), None, None, None),
        public_origin(Some("https://updates.burton.dev//"), None, None, None)
    );
    assert_eq!(normalize_public_url(None), None);
    assert_eq!(normalize_public_url(Some("/".to_string())).as_deref(), Some(""));
}
