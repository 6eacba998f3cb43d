use request_dispatch::method::Method;
use request_dispatch::request::build_request;
use request_dispatch::response::{body_preview, body_trace_line, make_response, PREVIEW_LIMIT};

#[test]
fn response_keeps_status_and_body() {
    let r = make_response(404, "not found".to_string());
    assert_eq!(r.status, 404);
    assert_eq!(r.body, "not found");

    let r = make_response(503, "".to_string());
    assert_eq!(r.status, 503);
    assert_eq!(r.body, "");
}

#[test]
fn dispatch_ok_scenario() {
    // A GET against a server answering 200 with body "hi".
    let plan = build_request(
        "https://example.test/ok".to_string(),
        &"GET".to_string(),
        None,
        None,
        None,
    )
    .unwrap();
    assert_eq!(plan.method, Method::Get);
    assert_eq!(plan.url, "https://example.test/ok");
    assert!(plan.headers.is_empty());
    assert_eq!(plan.body, None);

    let r = make_response(200, "hi".to_string());
    assert_eq!(r.status, 200);
    assert_eq!(r.body, "hi");
}

#[test]
fn preview_shows_short_body_whole() {
    let body = "hello".to_string();
    assert_eq!(body_preview(&body), "hello");

    let body = "x".repeat(PREVIEW_LIMIT - 1);
    assert_eq!(body_preview(&body), body);
}

#[test]
fn preview_truncates_long_body() {
    let body = "a".repeat(PREVIEW_LIMIT + 100);
    assert_eq!(body_preview(&body), "a".repeat(PREVIEW_LIMIT));

    let body = "b".repeat(PREVIEW_LIMIT);
    assert_eq!(body_preview(&body), body);
}

#[test]
fn trace_line_shows_short_body_whole() {
    let body = "hi".to_string();
    assert_eq!(body_trace_line(&body), "Response body: hi");
}

#[test]
fn trace_line_marks_truncated_body() {
    let body = "z".repeat(PREVIEW_LIMIT + 7);
    let expected = format!("Response body (first 500 chars): {}", "z".repeat(PREVIEW_LIMIT));
    assert_eq!(body_trace_line(&body), expected);
}

#[test]
fn preview_counts_characters_not_bytes() {
    // 200 three-byte characters: 600 bytes but only 200 characters,
    // so the whole body is shown.
    let body = "\u{20AC}".repeat(200);
    assert_eq!(body_preview(&body), body);

    // 600 three-byte characters: cut after 500 characters, on a
    // character boundary.
    let body = "\u{20AC}".repeat(600);
    assert_eq!(body_preview(&body), "\u{20AC}".repeat(PREVIEW_LIMIT));
}
