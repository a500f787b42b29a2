use std::collections::HashMap;

use ruxios::{
    Fetch, HttpMethod, Ruxios, RuxiosConfig, RuxiosRequestConfig, convert_map, convert_pairs,
    echo_round_trip, encode_body, full_url,
};

fn value(text: &str) -> serde_json::Value {
    serde_json::from_str(text).expect("test text must be valid JSON")
}

#[test]
fn config_defaults() {
    let config = RuxiosConfig::new();
    assert_eq!(config.base_url, "");
    assert_eq!(config.timeout, 10000);
    assert!(config.headers.is_empty());

    let cfg = RuxiosRequestConfig::default();
    assert_eq!(cfg.url, "");
    assert_eq!(cfg.method.as_deref(), Some("GET"));
    assert!(cfg.headers.is_none());
}

#[test]
fn url_concatenation_is_literal() {
    assert_eq!(full_url("https://api.example.com", "/x"), "https://api.example.com/x");
    assert_eq!(full_url("", "https://api.example.com/x"), "https://api.example.com/x");
    // No separator is inserted and nothing is normalized.
    assert_eq!(full_url("https://api.example.com", "x"), "https://api.example.comx");
    assert_eq!(full_url("https://a/", "/b"), "https://a//b");
}

#[test]
fn prepared_request_settles_url_method_and_header() {
    let api = Ruxios::from(RuxiosConfig {
        base_url: String::from("https://api.github.com"),
        ..RuxiosConfig::default()
    });
    assert_eq!(api.config.base_url, "https://api.github.com");

    let prep = api.prepare_request(
        RuxiosRequestConfig {
            url: String::from("/users/devzolo"),
            method: Some(String::from("get")),
            headers: None,
        },
        None,
    );
    assert_eq!(prep.url, "https://api.github.com/users/devzolo");
    assert_eq!(prep.method, HttpMethod::GET);
    assert_eq!(prep.user_agent, "Ruxios");
    assert!(prep.headers.is_none());
    assert!(prep.body.is_none());
}

#[test]
fn prepared_request_defaults_to_get_and_passes_things_through() {
    let api = Ruxios::new();

    let mut headers = HashMap::new();
    headers.insert(String::from("Content-Type"), String::from("application/json"));

    let prep = api.prepare_request(
        RuxiosRequestConfig {
            url: String::from("https://jsonplaceholder.typicode.com/posts"),
            method: None,
            headers: Some(headers),
        },
        Some(String::from("{\"title\":\"foo\"}")),
    );
    assert_eq!(prep.url, "https://jsonplaceholder.typicode.com/posts");
    assert_eq!(prep.method, HttpMethod::GET);
    assert_eq!(
        prep.headers.expect("headers must be passed through").get("Content-Type").map(
            String::as_str,
        ),
        Some("application/json"),
    );
    assert_eq!(prep.body.as_deref(), Some("{\"title\":\"foo\"}"));
}

#[test]
fn echoed_bodies_come_back_unchanged() {
    let body = value("{\"title\":\"foo\",\"body\":\"bar\",\"userId\":1}");
    let env = echo_round_trip(&body).expect("an echoed body must decode");
    assert_eq!(env.status, 200);
    assert_eq!(env.data, body);

    let nested = value("[{\"a\":[1,2,3]},{\"b\":{\"c\":null}},true,\"x\"]");
    let env = echo_round_trip(&nested).expect("an echoed body must decode");
    assert_eq!(env.data, nested);

    // Floating-point numbers come back bit-for-bit, including ones whose
    // shortest printed form needs a correctly rounding reader.
    let floats = value(
        "[0.1,2.2250738585072014e-308,1.7976931348623157e308,5e-324,3.141592653589793]",
    );
    let env = echo_round_trip(&floats).expect("an echoed body must decode");
    assert_eq!(env.data, floats);
}

#[test]
fn encoded_bodies_are_plain_json_text() {
    let body = value("{\"title\":\"foo\"}");
    let text = encode_body(&body).expect("a document must encode");
    assert_eq!(text, "{\"title\":\"foo\"}");
}

#[test]
fn fetch_defaults_cascade() {
    let (cfg, body) = Fetch::new("https://api.github.com/users/devzolo").into_request();
    assert_eq!(cfg.url, "https://api.github.com/users/devzolo");
    assert_eq!(cfg.method.as_deref(), Some("GET"));
    assert_eq!(cfg.headers.map(|h| h.len()), Some(0));
    assert_eq!(body, serde_json::Value::Null);
}

#[test]
fn fetch_keeps_what_it_is_given() {
    let mut headers = HashMap::new();
    headers.insert(String::from("Content-Type"), String::from("application/json"));

    let given = value("{\"title\":\"foo\"}");
    let (cfg, body) = Fetch::new("https://jsonplaceholder.typicode.com/posts")
        .method("POST")
        .headers(headers)
        .body(given.clone())
        .into_request();
    assert_eq!(cfg.url, "https://jsonplaceholder.typicode.com/posts");
    assert_eq!(cfg.method.as_deref(), Some("POST"));
    assert_eq!(
        cfg.headers.expect("headers were given").get("Content-Type").map(String::as_str),
        Some("application/json"),
    );
    assert_eq!(body, given);
}

#[test]
fn convert_map_turns_pairs_into_strings() {
    let converted = convert_map(vec![("Content-Type", "application/json"), ("Accept", "*/*")]);
    assert_eq!(converted.len(), 2);
    assert_eq!(converted.get("Content-Type").map(String::as_str), Some("application/json"));
    assert_eq!(converted.get("Accept").map(String::as_str), Some("*/*"));
}

#[test]
fn convert_pairs_is_exact_and_keeps_order() {
    let pairs = convert_pairs(vec![("b", "2"), ("a", "1"), ("b", "3")]);
    assert_eq!(
        pairs,
        vec![
            (String::from("b"), String::from("2")),
            (String::from("a"), String::from("1")),
            (String::from("b"), String::from("3")),
        ],
    );
    assert_eq!(convert_pairs(vec![]), vec![]);
}

#[test]
fn shortcut_config_fixes_url_and_method() {
    let cfg = RuxiosRequestConfig::shortcut("/users/1", "DELETE");
    assert_eq!(cfg.url, "/users/1");
    assert_eq!(cfg.method.as_deref(), Some("DELETE"));
    assert!(cfg.headers.is_none());
}
