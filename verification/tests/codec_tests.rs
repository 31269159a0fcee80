use mcp_arch_linux::json::{parse_json, to_text, JsonValue};
use mcp_arch_linux::jsonrpc::{JsonRpcError, JsonRpcRequest, JsonRpcResponse};

fn obj(pairs: Vec<(&str, JsonValue)>) -> JsonValue {
    let mut ps: Vec<(String, JsonValue)> = Vec::new();
    for (k, v) in pairs {
        ps.push((k.to_string(), v));
    }
    JsonValue::Obj(ps)
}

fn assert_round_trip(v: &JsonValue) {
    let text = to_text(v);
    let back = parse_json(&text).expect("serialized text must parse");
    let again = to_text(&back);
    assert_eq!(text, again);
}

#[test]
fn scalar_documents_round_trip() {
    assert_round_trip(&JsonValue::Null);
    assert_round_trip(&JsonValue::Bool(true));
    assert_round_trip(&JsonValue::Bool(false));
    assert_round_trip(&JsonValue::Int(0));
    assert_round_trip(&JsonValue::Int(-1));
    assert_round_trip(&JsonValue::Int(i64::MAX));
    assert_round_trip(&JsonValue::Int(i64::MIN));
    assert_round_trip(&JsonValue::Str("hello".to_string()));
}

#[test]
fn escaped_strings_round_trip() {
    let tricky = "a\"b\\c\nd\te\rf";
    let v = JsonValue::Str(tricky.to_string());
    let text = to_text(&v);
    match parse_json(&text) {
        Some(JsonValue::Str(s)) => assert_eq!(s, tricky),
        other => panic!("expected a string back, got {:?}", other),
    }
}

#[test]
fn nested_documents_round_trip() {
    let v = obj(vec![
        ("empty_list", JsonValue::Arr(Vec::new())),
        ("empty_obj", JsonValue::Obj(Vec::new())),
        (
            "items",
            JsonValue::Arr(vec![
                JsonValue::Int(1),
                JsonValue::Str("two".to_string()),
                JsonValue::Arr(vec![JsonValue::Null]),
                obj(vec![("k", JsonValue::Bool(false))]),
            ]),
        ),
    ]);
    assert_round_trip(&v);
}

#[test]
fn serializer_emits_expected_text() {
    let v = obj(vec![
        ("a", JsonValue::Int(-42)),
        ("b", JsonValue::Arr(vec![JsonValue::Int(1), JsonValue::Int(2)])),
    ]);
    assert_eq!(to_text(&v), "{\"a\":-42,\"b\":[1,2]}");
}

#[test]
fn parser_accepts_whitespace_and_rejects_junk() {
    assert!(parse_json("  { \"a\" : [ 1 , 2 ] }  ").is_some());
    assert!(parse_json("not-json").is_none());
    assert!(parse_json("").is_none());
    assert!(parse_json("{").is_none());
    assert!(parse_json("[1,]").is_none());
    assert!(parse_json("{\"a\":1} trailing").is_none());
    assert!(parse_json("\"unterminated").is_none());
}

#[test]
fn parser_rejects_out_of_range_numbers() {
    assert!(parse_json("9223372036854775807").is_some());
    assert!(parse_json("9223372036854775808").is_none());
    assert!(parse_json("-9223372036854775808").is_some());
    assert!(parse_json("-9223372036854775809").is_none());
}

#[test]
fn response_round_trips_with_result() {
    let resp = JsonRpcResponse::result(JsonValue::Int(7), JsonValue::Str("ok".to_string()));
    let line = resp.to_line();
    let doc = parse_json(&line).expect("response line parses");
    let back = JsonRpcResponse::from_json(&doc).expect("response decodes");
    match back.id {
        JsonValue::Int(i) => assert_eq!(i, 7),
        other => panic!("expected integer id, got {:?}", other),
    }
    assert!(back.result.is_some());
    assert!(back.error.is_none());
}

#[test]
fn response_round_trips_with_error() {
    let resp = JsonRpcResponse::failure(
        JsonValue::Str("abc".to_string()),
        JsonRpcError::new(-32601, "Method not found".to_string()),
    );
    let line = resp.to_line();
    let doc = parse_json(&line).expect("response line parses");
    let back = JsonRpcResponse::from_json(&doc).expect("response decodes");
    match back.id {
        JsonValue::Str(s) => assert_eq!(s, "abc"),
        other => panic!("expected string id, got {:?}", other),
    }
    assert!(back.result.is_none());
    let err = back.error.expect("error present");
    assert_eq!(err.code, -32601);
    assert_eq!(err.message, "Method not found");
}

#[test]
fn request_decodes_without_protocol_tag() {
    let doc = parse_json("{\"method\":\"tools/list\",\"id\":3}").expect("parses");
    let req = JsonRpcRequest::from_json(&doc).expect("decodes");
    assert_eq!(req.jsonrpc, "2.0");
    assert_eq!(req.method, "tools/list");
}

#[test]
fn request_requires_method_and_id() {
    let no_id = parse_json("{\"jsonrpc\":\"2.0\",\"method\":\"x\"}").expect("parses");
    assert!(JsonRpcRequest::from_json(&no_id).is_none());
    let no_method = parse_json("{\"jsonrpc\":\"2.0\",\"id\":1}").expect("parses");
    assert!(JsonRpcRequest::from_json(&no_method).is_none());
}
