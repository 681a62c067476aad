use tower_json_rpc::json::{find_member, reversed, same_text, Json, JsonNumber};
use tower_json_rpc::message::{ErrorObject, Id, JsonRpcResponse, ResponsePayload};
use tower_json_rpc::wire::{decode_response, encode_response};

fn parse(text: &str) -> Json {
    let wrapped = format!("{{\"id\":null,\"result\":{}}}", text);
    match decode_response(wrapped.as_bytes()).unwrap().payload {
        ResponsePayload::Success(value) => value,
        ResponsePayload::Error(_) => panic!("expected a result"),
    }
}

fn render(value: Json) -> String {
    let bytes = encode_response(JsonRpcResponse { id: Id::Null, payload: ResponsePayload::Success(value) }).unwrap();
    String::from_utf8(bytes).unwrap()
}

#[test]
fn parsing_yields_the_tree_and_not_the_text() {
    assert_eq!(parse("null"), Json::Null);
    assert_eq!(parse("true"), Json::Bool(true));
    assert_eq!(parse("18446744073709551615"), Json::Number(JsonNumber::PosInt(u64::MAX)));
    assert_eq!(parse("-9223372036854775808"), Json::Number(JsonNumber::NegInt(i64::MIN)));
    assert_eq!(parse("0"), Json::Number(JsonNumber::PosInt(0)));
    assert_eq!(parse("2.5"), Json::Number(JsonNumber::Float("2.5".to_string())));
    assert_eq!(parse("1e3"), Json::Number(JsonNumber::Float("1000.0".to_string())));
    assert_eq!(parse("\"a\\nb\""), Json::Str("a\nb".to_string()));
    assert_eq!(parse("[1,[2],{}]"), Json::Array(vec![
        Json::Number(JsonNumber::PosInt(1)),
        Json::Array(vec![Json::Number(JsonNumber::PosInt(2))]),
        Json::Object(vec![]),
    ]));
    assert_eq!(parse("{\"b\":1,\"a\":{\"c\":null}}"), Json::Object(vec![
        ("a".to_string(), Json::Object(vec![("c".to_string(), Json::Null)])),
        ("b".to_string(), Json::Number(JsonNumber::PosInt(1))),
    ]));
}

#[test]
fn rendering_writes_compact_json() {
    assert_eq!(render(Json::Str("q\"".to_string())), r#"{"id":null,"result":"q\""}"#);
    assert_eq!(render(Json::Number(JsonNumber::NegInt(-7))), r#"{"id":null,"result":-7}"#);
    assert_eq!(render(Json::Number(JsonNumber::Float("2.5".to_string()))), r#"{"id":null,"result":2.5}"#);
    assert_eq!(
        render(Json::Array(vec![Json::Bool(false), Json::Object(vec![("k".to_string(), Json::Null)])])),
        r#"{"id":null,"result":[false,{"k":null}]}"#
    );
    let failure = JsonRpcResponse {
        id: Id::Str("i".to_string()),
        payload: ResponsePayload::Error(ErrorObject { code: 0, message: String::new(), data: None }),
    };
    assert_eq!(String::from_utf8(encode_response(failure).unwrap()).unwrap(), r#"{"error":{"code":0,"message":""},"id":"i"}"#);
}

#[test]
fn copies_are_deep_and_equal() {
    let value = parse("{\"a\":[1,2.5,\"x\",{\"b\":[null,true]}],\"c\":-1}");
    let copy = value.duplicate();
    assert_eq!(copy, value);
    assert_eq!(value.clone(), value);
    assert_eq!(JsonNumber::Float("1.5".to_string()).clone(), JsonNumber::Float("1.5".to_string()));
    assert_eq!(Id::Str("a".to_string()).clone(), Id::Str("a".to_string()));
}

#[test]
fn members_are_found_from_the_end() {
    let members = vec![
        ("a".to_string(), Json::Bool(true)),
        ("b".to_string(), Json::Null),
        ("a".to_string(), Json::Bool(false)),
    ];
    assert_eq!(find_member(&members, &"a".to_string()), Some(2));
    assert_eq!(find_member(&members, &"b".to_string()), Some(1));
    assert_eq!(find_member(&members, &"c".to_string()), None);
    assert_eq!(find_member(&Vec::new(), &"a".to_string()), None);
    assert!(same_text(&"x".to_string(), &"x".to_string()));
    assert!(!same_text(&"x".to_string(), &"y".to_string()));
    assert_eq!(reversed(vec![Json::Null, Json::Bool(true)]), vec![Json::Bool(true), Json::Null]);
}
