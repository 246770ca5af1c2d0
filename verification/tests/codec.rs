use todo_app::codec::{encode_todo, parse_todo};
use todo_app::http::{Method, Request};
use todo_app::pipeline::handle;
use todo_app::todo::Todo;

fn json_request(body: &[u8]) -> Request {
    Request {
        method: Method::Post,
        path: b"/json".to_vec(),
        query: Vec::new(),
        headers: vec![(b"authorization".to_vec(), b"GBA".to_vec())],
        body: body.to_vec(),
    }
}

#[test]
fn echo_returns_the_posted_document() {
    let body = br#"{"title":"foo","description":"Bar ja bulle!"}"#;
    let response = handle(&json_request(body));
    assert_eq!(response.status, 200);
    assert_eq!(&response.body[..], &body[..]);
}

#[test]
fn echo_accepts_members_in_either_order() {
    let body = br#"{"description":"Bar ja bulle!","title":"foo"}"#;
    let response = handle(&json_request(body));
    assert_eq!(response.status, 200);
    assert_eq!(
        &response.body[..],
        &br#"{"title":"foo","description":"Bar ja bulle!"}"#[..]
    );
}

#[test]
fn echo_accepts_whitespace_between_tokens() {
    let body = b"  { \"title\" : \"foo\" ,\n\t\"description\" : \"bar\" }  ";
    let response = handle(&json_request(body));
    assert_eq!(response.status, 200);
    assert_eq!(&response.body[..], &br#"{"title":"foo","description":"bar"}"#[..]);
}

#[test]
fn malformed_document_is_400() {
    for body in [
        &b"not json at all"[..],
        &b"{}"[..],
        &br#"{"title":"foo"}"#[..],
        &br#"{"title":"foo","description":"bar","extra":"x"}"#[..],
        &br#"{"title":"foo","description":"bar"} trailing"#[..],
        &br#"{"title":"foo","description":17}"#[..],
        &br#"{"title":"foo","description":"bar"#[..],
        &br#"{"title":"foo","descriptionX":"bar"}"#[..],
    ] {
        let response = handle(&json_request(body));
        assert_eq!(response.status, 400, "body: {:?}", String::from_utf8_lossy(body));
        assert!(response.body.is_empty());
    }
}

#[test]
fn round_trip_preserves_escaped_characters() {
    let todo = Todo {
        title: b"a \"quoted\" word".to_vec(),
        description: b"a back\\slash".to_vec(),
    };
    let encoded = encode_todo(&todo);
    let decoded = parse_todo(&encoded).expect("the canonical document must decode");
    assert_eq!(decoded.title, todo.title);
    assert_eq!(decoded.description, todo.description);
}

#[test]
fn encoder_output_is_plain_json() {
    let todo = Todo {
        title: b"a \"quoted\" word".to_vec(),
        description: b"a back\\slash".to_vec(),
    };
    let encoded = encode_todo(&todo);
    let value: serde_json::Value = serde_json::from_slice(&encoded).unwrap();
    assert_eq!(value["title"], serde_json::Value::String("a \"quoted\" word".to_string()));
    assert_eq!(value["description"], serde_json::Value::String("a back\\slash".to_string()));
}

#[test]
fn parser_decodes_the_two_escapes() {
    let body = br#"{"title":"say \"hi\"","description":"c:\\tmp"}"#;
    let decoded = parse_todo(&body.to_vec()).expect("escapes must decode");
    assert_eq!(decoded.title, b"say \"hi\"".to_vec());
    assert_eq!(decoded.description, b"c:\\tmp".to_vec());
}

#[test]
fn lone_backslash_is_rejected(){
    let body = br#"{"title":"bad \x escape","description":"bar"}"#;
    assert!(parse_todo(&body.to_vec()).is_none());
}
