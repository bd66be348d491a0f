use statemachine::web_ui::{api_path, checked_forward_handler, text_fixes_structure, connection_header, forward_handler, response_headers, ForwardError, Header};
use url::Url;

fn base() -> Url {
    Url::parse("http://localhost:8081").unwrap()
}

#[test]
fn api_path_strips_prefix() {
    assert_eq!(api_path("/api/query"), Ok("/query"));
    assert_eq!(api_path("/api"), Err(ForwardError::MissingTargetApi));
    assert_eq!(api_path("/index.html"), Err(ForwardError::NotUnderApi));
    assert_eq!(api_path("/ap"), Err(ForwardError::NotUnderApi));
    assert_eq!(api_path(""), Err(ForwardError::NotUnderApi));
    assert_eq!(api_path("/apix"), Ok("x"));
}

#[test]
fn forward_sets_path_and_query() {
    let forward = forward_handler(&base(), "/api/query", Some("a=1&b=2"), Some("127.0.0.1".to_string())).unwrap();
    assert_eq!(forward.url.as_str(), "http://localhost:8081/query?a=1&b=2");
    assert_eq!(forward.forwarded_for.as_deref(), Some("127.0.0.1"));
}

#[test]
fn forward_without_query_or_peer() {
    let forward = forward_handler(&base(), "/api/v1/items", None, None).unwrap();
    assert_eq!(forward.url.as_str(), "http://localhost:8081/v1/items");
    assert_eq!(forward.forwarded_for, None);
}

#[test]
fn forward_replaces_base_path_and_query() {
    let base = Url::parse("http://api.internal:9000/old?x=1").unwrap();
    let forward = forward_handler(&base, "/api/new", None, None).unwrap();
    assert_eq!(forward.url.as_str(), "http://api.internal:9000/new");
}

#[test]
fn forward_keeps_text_after_api_without_slash() {
    let forward = forward_handler(&base(), "/apix", None, None).unwrap();
    assert_eq!(forward.url.as_str(), "http://localhost:8081/x");
}

#[test]
fn forward_percent_encodes_path() {
    let forward = forward_handler(&base(), "/api/some comments", None, None).unwrap();
    assert_eq!(forward.url.as_str(), "http://localhost:8081/some%20comments");
}

#[test]
fn forward_refuses_bad_paths() {
    assert_eq!(forward_handler(&base(), "/api", None, None).err(), Some(ForwardError::MissingTargetApi));
    assert_eq!(forward_handler(&base(), "/static/index.html", None, None).err(), Some(ForwardError::NotUnderApi));
}

#[test]
fn connection_header_ignores_case() {
    assert!(connection_header("connection"));
    assert!(connection_header("Connection"));
    assert!(connection_header("CONNECTION"));
    assert!(!connection_header("connections"));
    assert!(!connection_header("keep-alive"));
    assert!(!connection_header(""));
}

#[test]
fn response_headers_drop_connection_only() {
    let headers = vec![
        Header { name: "content-type".to_string(), value: b"text/plain".to_vec() },
        Header { name: "connection".to_string(), value: b"close".to_vec() },
        Header { name: "x-trace".to_string(), value: b"1".to_vec() },
        Header { name: "Connection".to_string(), value: b"keep-alive".to_vec() },
        Header { name: "x-trace".to_string(), value: b"2".to_vec() },
    ];
    let kept: Vec<(String, Vec<u8>)> = response_headers(headers).into_iter().map(|h| (h.name, h.value)).collect();
    assert_eq!(
        kept,
        vec![
            ("content-type".to_string(), b"text/plain".to_vec()),
            ("x-trace".to_string(), b"1".to_vec()),
            ("x-trace".to_string(), b"2".to_vec()),
        ]
    );
}

#[test]
fn response_headers_of_nothing() {
    assert!(response_headers(Vec::new()).is_empty());
}

#[test]
fn checked_forward_decides_when_sizes_fit() {
    let decision = checked_forward_handler(&base(), "/api/query", Some("a=1"), None).unwrap();
    assert_eq!(decision.unwrap().url.as_str(), "http://localhost:8081/query?a=1");
    assert_eq!(
        checked_forward_handler(&base(), "/other", None, None).unwrap().err(),
        Some(ForwardError::NotUnderApi)
    );
}

#[test]
fn structure_fixed_by_text_for_server_urls() {
    assert!(text_fixes_structure(&base()));
    assert!(text_fixes_structure(&Url::parse("https://api.internal:9000/v1?x=1#f").unwrap()));
    assert!(!text_fixes_structure(&Url::parse("mailto:x").unwrap()));
    assert!(!text_fixes_structure(&Url::parse("foo:/no/host").unwrap()));
}

#[test]
fn forward_from_opaque_base_still_decides_the_path() {
    let base = Url::parse("mailto:x").unwrap();
    assert!(forward_handler(&base, "/api/a", None, None).is_ok());
    assert_eq!(forward_handler(&base, "/api", None, None).err(), Some(ForwardError::MissingTargetApi));
}
