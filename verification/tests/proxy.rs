use burton_update_dev::headers::{forward_request_header, forward_response_header, plan_response_headers};
use burton_update_dev::upstream::{check_extensions_upstream, scheme_allowed, upstream_request_url, UpstreamError};

#[test]
fn request_headers_skip_hop_by_hop_and_credentials() {
    for name in [
        "host", "Connection", "keep-alive", "proxy-authenticate", "Proxy-Authorization", "te",
        "trailer", "transfer-encoding", "upgrade", "COOKIE", "accept-encoding", "content-length",
    ] {
        assert!(!forward_request_header(name), "{name}");
    }
    for name in ["accept", "user-agent", "authorization", "hosts", "x-forwarded-host", ""] {
        assert!(forward_request_header(name), "{name}");
    }
}

#[test]
fn response_headers_allow_list() {
    assert!(forward_response_header("content-type"));
    assert!(forward_response_header("Content-Length"));
    assert!(forward_response_header("CACHE-CONTROL"));
    assert!(!forward_response_header("location"));
    assert!(!forward_response_header("set-cookie"));
}

#[test]
fn response_plan_adds_default_content_type_only_when_missing() {
    let plan = plan_response_headers(&["location", "Content-Type", "x-other", "cache-control"]);
    assert_eq!(plan.keep, vec![false, true, false, true]);
    assert!(!plan.add_default_content_type);

    let plan = plan_response_headers(&["content-length", "location"]);
    assert_eq!(plan.keep, vec![true, false]);
    assert!(plan.add_default_content_type);

    let plan = plan_response_headers(&[]);
    assert!(plan.keep.is_empty());
    assert!(plan.add_default_content_type);
}

#[test]
fn upstream_must_be_http_or_https() {
    assert!(check_extensions_upstream("https://api.zed.dev").is_ok());
    assert_eq!(
        check_extensions_upstream("http://127.0.0.1:8080").ok(),
        Some("http://127.0.0.1:8080/".to_string())
    );
    assert!(matches!(
        check_extensions_upstream("ftp://example.com"),
        Err(UpstreamError::UnsupportedScheme)
    ));
    assert!(matches!(check_extensions_upstream("not a url"), Err(UpstreamError::Invalid(_))));
    assert!(matches!(check_extensions_upstream(""), Err(UpstreamError::Invalid(_))));
    assert!(scheme_allowed("http"));
    assert!(scheme_allowed("https"));
    assert!(!scheme_allowed("HTTP"));
    assert!(!scheme_allowed("file"));
}

#[test]
fn upstream_text_is_the_parsed_url() {
    assert_eq!(
        check_extensions_upstream("HTTPS://API.zed.dev").ok(),
        Some("https://api.zed.dev/".to_string())
    );
}

#[test]
fn request_url_takes_path_and_query() {
    assert_eq!(
        upstream_request_url("http://127.0.0.1:8080/", "/extensions/html/download", None).ok(),
        Some("http://127.0.0.1:8080/extensions/html/download".to_string())
    );
    assert_eq!(
        upstream_request_url("https://api.zed.dev/", "/extensions", Some("filter=html")).ok(),
        Some("https://api.zed.dev/extensions?filter=html".to_string())
    );
    assert_eq!(
        upstream_request_url("https://api.zed.dev/?old=1", "/extensions/updates", None).ok(),
        Some("https://api.zed.dev/extensions/updates".to_string())
    );
    assert!(matches!(
        upstream_request_url("not a url", "/extensions", None),
        Err(UpstreamError::Invalid(_))
    ));
}
