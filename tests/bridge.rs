use std::collections::HashMap;

use http_bridge::fetch::{after_read, after_send, prepare_request, FetchStep};
use http_bridge::method::{method_from_upper, parse_method, same_text, HttpMethod};
use http_bridge::{HttpRequest, HttpResponse};

fn request(method: &str, headers: HashMap<String, String>, body: Option<&str>) -> HttpRequest {
    HttpRequest {
        url: "https://example.test/x".to_string(),
        method: method.to_string(),
        headers,
        body: body.map(|b| b.to_string()),
    }
}

#[test]
fn get_request_round_trip() {
    let out = prepare_request(request("get", HashMap::new(), None)).unwrap();
    assert_eq!(out.method, HttpMethod::Get);
    assert_eq!(out.url, "https://example.test/x");
    assert!(out.headers.is_empty());
    assert!(out.body.is_none());
    let step = after_send(Ok(200));
    assert!(matches!(step, FetchStep::ReadBody { status: 200 }));
    let resp: HttpResponse = after_read(200, Ok("ok".to_string())).unwrap();
    assert_eq!(resp.status, 200);
    assert_eq!(resp.body, "ok");
}

#[test]
fn trace_is_refused() {
    let err = prepare_request(request("TRACE", HashMap::new(), None)).unwrap_err();
    assert_eq!(err, "Unsupported HTTP method: TRACE");
}

#[test]
fn every_letter_case_of_the_verbs_is_accepted() {
    let cases = [
        ("GET", HttpMethod::Get),
        ("get", HttpMethod::Get),
        ("Post", HttpMethod::Post),
        ("pUt", HttpMethod::Put),
        ("DeLeTe", HttpMethod::Delete),
        ("patch", HttpMethod::Patch),
    ];
    for (name, verb) in cases {
        let out = prepare_request(request(name, HashMap::new(), None)).unwrap();
        assert_eq!(out.method, verb);
    }
}

#[test]
fn refusal_keeps_the_method_as_written() {
    for name in ["tRaCe", "", "GETT", "connect", " get"] {
        let err = prepare_request(request(name, HashMap::new(), None)).unwrap_err();
        assert_eq!(err, format!("Unsupported HTTP method: {}", name));
        assert!(err.contains(name));
    }
}

#[test]
fn headers_are_carried_exactly() {
    let mut headers = HashMap::new();
    headers.insert("Authorization".to_string(), "Bearer abc".to_string());
    headers.insert("X-Trace".to_string(), "  spaced  ".to_string());
    let out = prepare_request(request("post", headers.clone(), None)).unwrap();
    assert_eq!(out.headers.len(), 2);
    for (k, v) in &headers {
        assert_eq!(out.headers.get(k), Some(v));
    }
}

#[test]
fn post_without_body_has_no_payload() {
    let out = prepare_request(request("POST", HashMap::new(), None)).unwrap();
    assert_eq!(out.method, HttpMethod::Post);
    assert!(out.body.is_none());
}

#[test]
fn body_is_carried_verbatim() {
    let body = "{\"a\": 1}\r\n ünïcode";
    let out = prepare_request(request("put", HashMap::new(), Some(body))).unwrap();
    assert_eq!(out.body.as_deref(), Some(body));
    let empty = prepare_request(request("patch", HashMap::new(), Some(""))).unwrap();
    assert_eq!(empty.body.as_deref(), Some(""));
}

#[test]
fn response_status_and_text_are_returned() {
    let resp = after_read(404, Ok("missing".to_string())).unwrap();
    assert_eq!(resp.status, 404);
    assert_eq!(resp.body, "missing");
    let empty = after_read(204, Ok(String::new())).unwrap();
    assert_eq!(empty.status, 204);
    assert_eq!(empty.body, "");
}

#[test]
fn transport_failure_is_prefixed() {
    match after_send(Err("error sending request".to_string())) {
        FetchStep::Done(Err(msg)) => {
            assert_eq!(msg, "HTTP request failed: error sending request");
            assert!(msg.starts_with("HTTP request failed:"));
        }
        _ => panic!("a transport failure ends the exchange"),
    }
}

#[test]
fn undecodable_body_is_reported() {
    let err = after_read(200, Err("invalid utf-8".to_string())).unwrap_err();
    assert_eq!(err, "Failed to read response body: invalid utf-8");
}

#[test]
fn verbs_from_upper_case_names() {
    assert_eq!(method_from_upper("GET"), Some(HttpMethod::Get));
    assert_eq!(method_from_upper("PATCH"), Some(HttpMethod::Patch));
    assert_eq!(method_from_upper("get"), None);
    assert_eq!(method_from_upper("HEAD"), None);
}

#[test]
fn parse_method_folds_letter_case() {
    assert_eq!(parse_method("delete"), Some(HttpMethod::Delete));
    assert_eq!(parse_method("Put"), Some(HttpMethod::Put));
    assert_eq!(parse_method("options"), None);
}

#[test]
fn same_text_compares_characters() {
    assert!(same_text("about", "about"));
    assert!(!same_text("about", "About"));
    assert!(!same_text("", "a"));
    assert!(same_text("", ""));
}
