use salvo_kit::http::HeaderText;
use salvo_kit::proxy::{
    asks_upgrade, default_url_path_getter, default_url_query_getter, encode_url_path, forward_url,
    get_upgrade_type, join_forward_url, rest_of_url, Upstreams,
};

#[test]
fn test_encode_url_path() {
    let path = "/test/path";
    let encoded_path = encode_url_path(path);
    assert_eq!(encoded_path, "/test/path");
}

#[test]
fn test_get_upgrade_type() {
    let connection = HeaderText::Text("upgrade".to_string());
    let upgrade = HeaderText::Text("websocket".to_string());
    let upgrade_type = get_upgrade_type(&connection, &upgrade);
    assert_eq!(upgrade_type, Some("websocket"));
}

#[test]
fn controls_and_what_is_beyond_ascii_are_escaped() {
    assert_eq!(encode_url_path("/a b/\u{e9}\n/x"), "/a b/%C3%A9%0A/x");
    assert_eq!(encode_url_path(""), "");
    assert_eq!(encode_url_path("//"), "//");
    assert_eq!(encode_url_path("\u{7f}"), "%7F");
}

#[test]
fn upgrade_is_asked_in_any_case_among_other_tokens() {
    assert!(asks_upgrade("keep-alive, Upgrade"));
    assert!(asks_upgrade("UPGRADE"));
    assert!(asks_upgrade(" upgrade "));
    assert!(!asks_upgrade("keep-alive"));
    assert!(!asks_upgrade("upgraded"));
    assert!(!asks_upgrade(""));
    let text = |value: &str| HeaderText::Text(value.to_string());
    assert_eq!(get_upgrade_type(&text("keep-alive"), &text("websocket")), None);
    assert_eq!(get_upgrade_type(&text("upgrade"), &HeaderText::Absent), None);
    assert_eq!(get_upgrade_type(&text("upgrade"), &HeaderText::Opaque), None);
    assert_eq!(get_upgrade_type(&HeaderText::Absent, &text("websocket")), None);
    assert_eq!(get_upgrade_type(&HeaderText::Opaque, &text("websocket")), None);
}

#[test]
fn forward_url_has_one_slash_between_upstream_and_rest() {
    assert_eq!(join_forward_url("http://a/", "/b"), "http://a/b");
    assert_eq!(join_forward_url("http://a//", "/b"), "http://a/b");
    assert_eq!(join_forward_url("http://a/", "b"), "http://a/b");
    assert_eq!(join_forward_url("http://a", "/b"), "http://a/b");
    assert_eq!(join_forward_url("http://a", "b"), "http://a/b");
    assert_eq!(join_forward_url("http://a", ""), "http://a");
    assert_eq!(join_forward_url("http://a/", ""), "http://a/");
}

#[test]
fn query_follows_a_question_mark() {
    assert_eq!(rest_of_url("/p", None), "/p");
    assert_eq!(rest_of_url("/p", Some("a=1")), "/p?a=1");
    assert_eq!(rest_of_url("/p", Some("?a=1")), "/p?a=1");
    assert_eq!(rest_of_url("/p", Some("")), "/p?");
    assert_eq!(rest_of_url("", Some("a=1")), "?a=1");
}

#[test]
fn forward_url_of_a_request() {
    assert_eq!(
        forward_url("https://www.rust-lang.org", Some("learn/get started"), Some("a=1")).unwrap(),
        "https://www.rust-lang.org/learn/get started?a=1"
    );
    assert_eq!(forward_url("https://a/", None, None).unwrap(), "https://a/");
    assert_eq!(forward_url("https://a", None, Some("q")).unwrap(), "https://a/?q");
    assert_eq!(forward_url("", Some("x"), None).unwrap_err().message(), "upstreams is empty");
}

#[test]
fn default_getters() {
    assert_eq!(default_url_path_getter(Some("a/\u{1}")), Some("a/%01".to_string()));
    assert_eq!(default_url_path_getter(None), None);
    assert_eq!(default_url_query_getter(Some("a=1")), Some("a=1".to_string()));
    assert_eq!(default_url_query_getter(None), None);
}

#[test]
fn an_upstream_is_elected_from_those_there_are() {
    assert_eq!("http://a".elect().unwrap(), "http://a");
    assert_eq!("http://b".to_string().elect().unwrap(), "http://b");
    let upstreams = vec!["http://a".to_string(), "http://b".to_string(), "http://c".to_string()];
    for _ in 0..50 {
        let elected = upstreams.elect().unwrap();
        assert!(upstreams.iter().any(|upstream| upstream == elected));
    }
    let fixed = ["http://a", "http://b"];
    for _ in 0..50 {
        let elected = fixed.elect().unwrap();
        assert!(fixed.contains(&elected));
    }
    let empty: [&'static str; 0] = [];
    assert_eq!(empty.elect().unwrap_err().message(), "upstreams is empty");
    let none: Vec<String> = Vec::new();
    assert_eq!(none.elect().unwrap_err().message(), "upstreams is empty");
}

#[test]
fn host_is_replaced_in_the_headers_that_are_passed_on() {
    let header = |name: &str, value: &str| (name.to_string(), value.to_string());
    let headers = vec![header("accept", "*/*"), header("host", "localhost"), header("x-id", "1")];
    assert_eq!(
        salvo_kit::proxy::proxied_headers(&headers, Some("www.rust-lang.org")),
        vec![header("accept", "*/*"), header("x-id", "1"), header("host", "www.rust-lang.org")]
    );
    assert_eq!(
        salvo_kit::proxy::proxied_headers(&headers, None),
        vec![header("accept", "*/*"), header("x-id", "1")]
    );
    assert_eq!(salvo_kit::proxy::proxied_headers(&vec![], None), vec![]);
}
