use xrconnect::document::parse;
use xrconnect::json::{Json, Member};

fn member(name: &str, value: Json) -> Member {
    Member { name: name.to_string(), value }
}

fn number(s: &str) -> Json {
    Json::Number(s.to_string())
}

#[test]
fn scalars_are_parsed() {
    assert_eq!(parse(b"null"), Some(Json::Null));
    assert_eq!(parse(b"true"), Some(Json::Bool(true)));
    assert_eq!(parse(b" false "), Some(Json::Bool(false)));
    assert_eq!(parse(b"\"a\\u0041\\n\""), Some(Json::Text("aA\n".to_string())));
    assert_eq!(parse(b"\"\""), Some(Json::Text(String::new())));
}

#[test]
fn numbers_are_kept_as_canonical_text() {
    assert_eq!(parse(b"5"), Some(number("5")));
    assert_eq!(parse(b"0"), Some(number("0")));
    assert_eq!(parse(b"-3"), Some(number("-3")));
    assert_eq!(parse(b"5.0"), Some(number("5.0")));
    assert_eq!(parse(b"0.5"), Some(number("0.5")));
    assert_eq!(parse(b"1e2"), Some(number("100.0")));
    assert_eq!(parse(b"18446744073709551615"), Some(number("18446744073709551615")));
    assert_eq!(parse(b"0.30000000000000004"), Some(number("0.30000000000000004")));
    assert_eq!(parse(b"-0"), Some(number("-0.0")));
}

#[test]
fn arrays_keep_their_order() {
    assert_eq!(parse(b"[]"), Some(Json::Array(vec![])));
    assert_eq!(
        parse(b"[3, 1, [2, null], \"x\"]"),
        Some(Json::Array(vec![
            number("3"),
            number("1"),
            Json::Array(vec![number("2"), Json::Null]),
            Json::Text("x".to_string()),
        ]))
    );
}

#[test]
fn objects_hold_each_name_once() {
    assert_eq!(parse(b"{}"), Some(Json::Object(vec![])));
    assert_eq!(
        parse(br#"{"a": {"b": [true]}}"#),
        Some(Json::Object(vec![member(
            "a",
            Json::Object(vec![member("b", Json::Array(vec![Json::Bool(true)]))])
        )]))
    );
    let Some(Json::Object(members)) = parse(br#"{"b": 1, "a": 2, "b": 3}"#) else {
        panic!("not an object")
    };
    assert_eq!(members.len(), 2);
    assert!(members.contains(&member("a", number("2"))));
    assert!(members.contains(&member("b", number("3"))));
}

#[test]
fn what_is_no_document_is_not_parsed() {
    for bytes in [
        &b""[..],
        &b" "[..],
        &b"{"[..],
        &b"[1,]"[..],
        &b"{\"a\":}"[..],
        &b"01"[..],
        &b"1 2"[..],
        &b"'a'"[..],
        &b"NaN"[..],
        &b"1e999"[..],
        &b"\"\xff\""[..],
    ] {
        assert_eq!(parse(bytes), None, "{:?}", bytes);
    }
}

#[test]
fn deep_nesting_is_refused_not_overrun() {
    let deep = "[".repeat(200) + &"]".repeat(200);
    assert_eq!(parse(deep.as_bytes()), None);
    let shallow = "[".repeat(100) + &"]".repeat(100);
    assert!(parse(shallow.as_bytes()).is_some());
}
