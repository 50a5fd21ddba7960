//! The document parser and renderer on raw text.

use milky::json::JsonValue;
use milky::json_parse::parse_document;

fn parse(s: &str) -> JsonValue {
    parse_document(s).expect("must parse")
}

#[test]
fn parses_scalars() {
    assert!(matches!(parse("null"), JsonValue::Null));
    assert!(matches!(parse("true"), JsonValue::Bool(true)));
    assert!(matches!(parse("false"), JsonValue::Bool(false)));
    assert!(matches!(parse("0"), JsonValue::Int(0)));
    assert!(matches!(parse("-1"), JsonValue::Int(-1)));
    assert!(matches!(parse("  42  "), JsonValue::Int(42)));
}

#[test]
fn parses_integer_bounds() {
    assert!(matches!(parse("9223372036854775807"), JsonValue::Int(i64::MAX)));
    assert!(matches!(parse("-9223372036854775808"), JsonValue::Int(i64::MIN)));
    assert!(parse_document("9223372036854775808").is_none());
    assert!(parse_document("-9223372036854775809").is_none());
    assert!(parse_document("99999999999999999999999").is_none());
}

#[test]
fn rejects_number_oddities() {
    assert!(parse_document("01").is_none());
    assert!(parse_document("1.5").is_none());
    assert!(parse_document("1e3").is_none());
    assert!(parse_document("-").is_none());
    assert!(parse_document("+1").is_none());
}

#[test]
fn parses_strings_and_escapes() {
    match parse("\"a b\"") {
        JsonValue::Str(s) => assert_eq!(s, "a b"),
        _ => panic!("not a string"),
    }
    match parse("\"a\\n\\t\\\"\\\\\\/\\u0041\"") {
        JsonValue::Str(s) => assert_eq!(s, "a\n\t\"\\/A"),
        _ => panic!("not a string"),
    }
    match parse("\"\\u4e2d\"") {
        JsonValue::Str(s) => assert_eq!(s, "\u{4e2d}"),
        _ => panic!("not a string"),
    }
}

#[test]
fn rejects_bad_strings() {
    assert!(parse_document("\"open").is_none());
    assert!(parse_document("\"\\x\"").is_none());
    assert!(parse_document("\"\\u12\"").is_none());
    assert!(parse_document("\"\\ud800\"").is_none());
    assert!(parse_document("\"\\udc00\"").is_none());
    assert!(parse_document("\"\\ud83d\\u0041\"").is_none());
}

#[test]
fn combines_surrogate_pairs() {
    match parse("\"\\ud83d\\ude00\"") {
        JsonValue::Str(s) => assert_eq!(s, "\u{1F600}"),
        _ => panic!("not a string"),
    }
    match parse("\"\\uD834\\uDD1E!\"") {
        JsonValue::Str(s) => assert_eq!(s, "\u{1D11E}!"),
        _ => panic!("not a string"),
    }
}

#[test]
fn parses_collections() {
    match parse("[1, 2, 3]") {
        JsonValue::Arr(items) => assert_eq!(items.len(), 3),
        _ => panic!("not an array"),
    }
    match parse("[]") {
        JsonValue::Arr(items) => assert_eq!(items.len(), 0),
        _ => panic!("not an array"),
    }
    let v = parse("{ \"a\" : 1 , \"b\" : [true, null] }");
    assert!(matches!(v.get("a"), Some(JsonValue::Int(1))));
    assert!(matches!(v.get("b"), Some(JsonValue::Arr(_))));
    assert!(v.get("c").is_none());
}

#[test]
fn rejects_trailing_garbage_and_fragments() {
    assert!(parse_document("1 2").is_none());
    assert!(parse_document("{\"a\":1} x").is_none());
    assert!(parse_document("[1,]").is_none());
    assert!(parse_document("{\"a\":}").is_none());
    assert!(parse_document("{\"a\" 1}").is_none());
    assert!(parse_document("[1 2]").is_none());
    assert!(parse_document("   ").is_none());
}

#[test]
fn renders_canonically_and_round_trips() {
    let cases = vec![
        "null",
        "true",
        "false",
        "0",
        "-42",
        "9223372036854775807",
        "-9223372036854775808",
        "\"hi\"",
        "[]",
        "{}",
        "[1,\"two\",[true,null],{\"k\":-3}]",
        "{\"a\":1,\"b\":{\"c\":[]}}",
    ];
    for c in cases {
        let v = parse(c);
        assert_eq!(v.to_text(), c);
        let v2 = parse(&v.to_text());
        assert_eq!(v2.to_text(), c);
    }
}

#[test]
fn renders_escapes() {
    let v = parse("\"a\\n\\\"b\\\\\\u0001\"");
    assert_eq!(v.to_text(), "\"a\\n\\\"b\\\\\\u0001\"");
}
