use todo_app::http::{Method, Request};
use todo_app::pipeline::handle;

fn build_request(
    method: Method,
    path: &str,
    query: &str,
    headers: &[(&str, &str)],
    body: &[u8],
) -> Request {
    Request {
        method,
        path: path.as_bytes().to_vec(),
        query: query.as_bytes().to_vec(),
        headers: headers
            .iter()
            .map(|(n, v)| (n.as_bytes().to_vec(), v.as_bytes().to_vec()))
            .collect(),
        body: body.to_vec(),
    }
}

#[test]
fn test_hello_world() {
    let response = handle(&build_request(
        Method::Get,
        "/",
        "",
        &[("authorization", "GBA")],
        b"",
    ));

    assert_eq!(response.status, 200);
    assert_eq!(&response.body[..], b"Hello, world!");
}

#[test]
fn test_json() {
    let mut payload = serde_json::Map::new();
    payload.insert(
        "title".to_string(),
        serde_json::Value::String("foo".to_string()),
    );
    payload.insert(
        "description".to_string(),
        serde_json::Value::String("Bar ja bulle!".to_string()),
    );
    let body = serde_json::to_vec(&serde_json::Value::Object(payload.clone())).unwrap();

    let response = handle(&build_request(
        Method::Post,
        "/json",
        "",
        &[
            ("content-type", "application/json"),
            ("authorization", "GBA"),
        ],
        &body,
    ));

    assert_eq!(response.status, 200);
    let echoed: serde_json::Value = serde_json::from_slice(&response.body).unwrap();
    assert_eq!(echoed, serde_json::Value::Object(payload));
}

#[test]
fn test_not_found() {
    let response = handle(&build_request(Method::Get, "/does-not-exist", "", &[], b""));

    assert_eq!(response.status, 404);
    assert!(response.body.is_empty());
}

#[test]
fn missing_authorization_is_401() {
    let response = handle(&build_request(Method::Get, "/", "", &[], b""));
    assert_eq!(response.status, 401);
    assert!(response.body.is_empty());
}

#[test]
fn wrong_authorization_is_401() {
    let response = handle(&build_request(
        Method::Get,
        "/",
        "",
        &[("authorization", "gba")],
        b"",
    ));
    assert_eq!(response.status, 401);
    assert!(response.body.is_empty());
}

#[test]
fn authorization_header_name_is_case_insensitive() {
    let response = handle(&build_request(
        Method::Get,
        "/",
        "",
        &[("AuThOrIzAtIoN", "GBA")],
        b"",
    ));
    assert_eq!(response.status, 200);
}

#[test]
fn oversized_content_length_is_400() {
    let response = handle(&build_request(
        Method::Get,
        "/",
        "",
        &[("authorization", "GBA"), ("Content-Length", "2097153")],
        b"",
    ));
    assert_eq!(response.status, 400);
    assert!(response.body.is_empty());
}

#[test]
fn oversized_content_length_beats_bad_authorization() {
    let response = handle(&build_request(
        Method::Get,
        "/",
        "",
        &[("Content-Length", "999999999999")],
        b"",
    ));
    assert_eq!(response.status, 400);
}

#[test]
fn content_length_at_the_limit_passes() {
    let response = handle(&build_request(
        Method::Get,
        "/",
        "",
        &[("authorization", "GBA"), ("content-length", "2097152")],
        b"",
    ));
    assert_eq!(response.status, 200);
}

#[test]
fn unparseable_content_length_fails_open() {
    let response = handle(&build_request(
        Method::Get,
        "/",
        "",
        &[("authorization", "GBA"), ("content-length", "a lot")],
        b"",
    ));
    assert_eq!(response.status, 200);
}

#[test]
fn overflowing_content_length_fails_open() {
    let response = handle(&build_request(
        Method::Get,
        "/",
        "",
        &[
            ("authorization", "GBA"),
            ("content-length", "99999999999999999999999999"),
        ],
        b"",
    ));
    assert_eq!(response.status, 200);
}

#[test]
fn unmapped_path_is_404_even_with_authorization() {
    let response = handle(&build_request(
        Method::Get,
        "/does-not-exist",
        "",
        &[("authorization", "GBA")],
        b"",
    ));
    assert_eq!(response.status, 404);
    assert!(response.body.is_empty());
}

#[test]
fn unmapped_method_is_404() {
    let response = handle(&build_request(
        Method::Post,
        "/",
        "",
        &[("authorization", "GBA")],
        b"",
    ));
    assert_eq!(response.status, 404);
    assert!(response.body.is_empty());
}

#[test]
fn html_page_is_served() {
    let response = handle(&build_request(
        Method::Get,
        "/html",
        "",
        &[("authorization", "GBA")],
        b"",
    ));
    assert_eq!(response.status, 200);
    assert_eq!(response.body, todo_app::bytes::html_doc_vec());
}

#[test]
fn not_found_stub_answers_404() {
    let response = handle(&build_request(
        Method::Get,
        "/404",
        "",
        &[("authorization", "GBA")],
        b"",
    ));
    assert_eq!(response.status, 404);
    assert!(response.body.is_empty());
}

#[test]
fn error_stub_answers_literal_500_body() {
    let response = handle(&build_request(
        Method::Get,
        "/500",
        "",
        &[("authorization", "GBA")],
        b"",
    ));
    assert_eq!(response.status, 200);
    assert_eq!(&response.body[..], b"500");
}

#[test]
fn rand_empty_range_is_400() {
    let response = handle(&build_request(
        Method::Get,
        "/rand",
        "start=5&end=5",
        &[("authorization", "GBA")],
        b"",
    ));
    assert_eq!(response.status, 400);
    assert!(response.body.is_empty());
}

#[test]
fn rand_inverted_range_is_400() {
    let response = handle(&build_request(
        Method::Get,
        "/rand",
        "start=9&end=2",
        &[("authorization", "GBA")],
        b"",
    ));
    assert_eq!(response.status, 400);
}

#[test]
fn rand_missing_parameter_is_400() {
    let response = handle(&build_request(
        Method::Get,
        "/rand",
        "start=5",
        &[("authorization", "GBA")],
        b"",
    ));
    assert_eq!(response.status, 400);
}

#[test]
fn rand_non_numeric_parameter_is_400() {
    let response = handle(&build_request(
        Method::Get,
        "/rand",
        "start=five&end=9",
        &[("authorization", "GBA")],
        b"",
    ));
    assert_eq!(response.status, 400);
}

#[test]
fn rand_single_value_range_returns_that_value() {
    let response = handle(&build_request(
        Method::Get,
        "/rand",
        "start=7&end=8",
        &[("authorization", "GBA")],
        b"",
    ));
    assert_eq!(response.status, 200);
    assert_eq!(&response.body[..], b"<h1>Random Number: 7</h1>");
}

#[test]
fn rand_sample_stays_in_range() {
    let response = handle(&build_request(
        Method::Get,
        "/rand",
        "start=10&end=13",
        &[("authorization", "GBA")],
        b"",
    ));
    assert_eq!(response.status, 200);
    let candidates: [&[u8]; 3] = [
        b"<h1>Random Number: 10</h1>",
        b"<h1>Random Number: 11</h1>",
        b"<h1>Random Number: 12</h1>",
    ];
    assert!(candidates.iter().any(|c| *c == &response.body[..]));
}

#[test]
fn mapped_path_with_wrong_method_is_404() {
    let response = handle(&build_request(
        Method::Get,
        "/json",
        "",
        &[("authorization", "GBA")],
        b"",
    ));
    assert_eq!(response.status, 404);
    assert!(response.body.is_empty());
}

#[test]
fn rand_ignores_unknown_query_pairs() {
    let response = handle(&build_request(
        Method::Get,
        "/rand",
        "foo=1&start=4&end=5&bar",
        &[("authorization", "GBA")],
        b"",
    ));
    assert_eq!(response.status, 200);
    assert_eq!(&response.body[..], b"<h1>Random Number: 4</h1>");
}

#[test]
fn rand_first_pair_of_a_key_wins() {
    let response = handle(&build_request(
        Method::Get,
        "/rand",
        "start=3&start=9&end=4",
        &[("authorization", "GBA")],
        b"",
    ));
    assert_eq!(response.status, 200);
    assert_eq!(&response.body[..], b"<h1>Random Number: 3</h1>");
}
