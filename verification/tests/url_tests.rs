use shell_suggest::client::{build_request_url, build_request_url_str};

#[test]
fn request_url_carries_query_and_empty_context() {
    let url = build_request_url_str("http://example.net", "list files", &None).unwrap();
    assert_eq!(url, "http://example.net/?query=list+files&context=");
}

#[test]
fn request_url_carries_prior_command_as_context() {
    let url = build_request_url_str(
        "http://example.net/api",
        "also show sizes",
        &Some("ls -la".to_string()),
    )
    .unwrap();
    assert_eq!(url, "http://example.net/api?query=also+show+sizes&context=ls+-la");
}

#[test]
fn request_url_encodes_reserved_characters() {
    let url = build_request_url_str("http://example.net", "a&b=c", &Some("x y".to_string()))
        .unwrap();
    assert_eq!(url, "http://example.net/?query=a%26b%3Dc&context=x+y");
}

#[test]
fn invalid_base_url_yields_nothing() {
    assert!(build_request_url_str("not a url", "query", &None).is_none());
    assert!(build_request_url("not a url", "query", &None).is_none());
}

#[test]
fn built_url_is_fetchable_value() {
    let url = build_request_url("http://example.net", "list files", &None).unwrap();
    assert_eq!(url.as_str(), "http://example.net/?query=list+files&context=");
}
