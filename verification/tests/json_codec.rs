use hypothesis::json::{parse_json, to_text, u64_to_dec, JsonValue};

fn parse(s: &str) -> JsonValue {
    parse_json(s).expect("should parse")
}

#[test]
fn parses_scalars() {
    assert_eq!(parse("null"), JsonValue::Null);
    assert_eq!(parse("true"), JsonValue::Bool(true));
    assert_eq!(parse("false"), JsonValue::Bool(false));
    assert_eq!(parse("42"), JsonValue::Num("42".to_string()));
    assert_eq!(parse("-1.5e3"), JsonValue::Num("-1.5e3".to_string()));
    assert_eq!(parse("0"), JsonValue::Num("0".to_string()));
    assert_eq!(parse("\"hi\""), JsonValue::Str("hi".to_string()));
}

#[test]
fn parses_nested_structures() {
    let v = parse(r#" { "a" : [ 1 , "x" , { "b" : null } ] , "c" : true } "#);
    let expected = JsonValue::Obj(vec![
        (
            "a".to_string(),
            JsonValue::Arr(vec![
                JsonValue::Num("1".to_string()),
                JsonValue::Str("x".to_string()),
                JsonValue::Obj(vec![("b".to_string(), JsonValue::Null)]),
            ]),
        ),
        ("c".to_string(), JsonValue::Bool(true)),
    ]);
    assert_eq!(v, expected);
}

#[test]
fn parses_string_escapes() {
    assert_eq!(parse(r#""a\nb""#), JsonValue::Str("a\nb".to_string()));
    assert_eq!(parse(r#""q\"q""#), JsonValue::Str("q\"q".to_string()));
    assert_eq!(parse(r#""s\\t""#), JsonValue::Str("s\\t".to_string()));
    assert_eq!(parse(r#""a\/b""#), JsonValue::Str("a/b".to_string()));
    assert_eq!(parse(r#""x\u0001y""#), JsonValue::Str("x\u{1}y".to_string()));
    assert_eq!(parse("\"caf\u{e9}\""), JsonValue::Str("caf\u{e9}".to_string()));
}

#[test]
fn rejects_malformed_documents() {
    assert_eq!(parse_json("{"), None);
    assert_eq!(parse_json("tru"), None);
    assert_eq!(parse_json("[1,]"), None);
    assert_eq!(parse_json("\"unterminated"), None);
    assert_eq!(parse_json("{\"a\":1,}"), None);
    assert_eq!(parse_json("1 2"), None);
    assert_eq!(parse_json(""), None);
    assert_eq!(parse_json("{'a':1}"), None);
    assert_eq!(parse_json("\"bad\\escape\""), None);
}

#[test]
fn encodes_canonically() {
    let v = JsonValue::Obj(vec![
        ("a".to_string(), JsonValue::Arr(vec![JsonValue::Num("1".to_string()), JsonValue::Null])),
        ("b".to_string(), JsonValue::Str("x\ny".to_string())),
    ]);
    assert_eq!(to_text(&v), r#"{"a":[1,null],"b":"x\ny"}"#);
    assert_eq!(to_text(&JsonValue::Arr(vec![])), "[]");
    assert_eq!(to_text(&JsonValue::Obj(vec![])), "{}");
}

#[test]
fn control_characters_are_escaped_and_recovered() {
    let v = JsonValue::Str("a\u{1}b\u{8}c\u{c}d".to_string());
    let text = to_text(&v);
    assert_eq!(text, r#""a\u0001b\bc\fd""#);
    assert_eq!(parse_json(&text), Some(v));
}

#[test]
fn unicode_escapes_cover_all_scalar_values() {
    assert_eq!(parse(r#""caf\u00e9""#), JsonValue::Str("caf\u{e9}".to_string()));
    assert_eq!(parse(r#""\u0041BC""#), JsonValue::Str("ABC".to_string()));
    assert_eq!(
        parse(r#""\u4e16\u754c""#),
        JsonValue::Str("\u{4e16}\u{754c}".to_string())
    );
    // a supplementary character arrives as a high-low surrogate pair
    assert_eq!(parse(r#""\ud83d\ude00""#), JsonValue::Str("\u{1f600}".to_string()));
    // lone, reversed or truncated escapes are not scalar values
    assert_eq!(parse_json(r#""\ud83d""#), None);
    assert_eq!(parse_json(r#""\ud83dx""#), None);
    assert_eq!(parse_json(r#""\ude00\ud83d""#), None);
    assert_eq!(parse_json(r#""\u12""#), None);
}

#[test]
fn round_trips_through_text() {
    let v = JsonValue::Obj(vec![
        ("k".to_string(), JsonValue::Str("va\"l\\ue\twith\nstuff".to_string())),
        ("n".to_string(), JsonValue::Num("-12.5e-3".to_string())),
        ("l".to_string(), JsonValue::Arr(vec![JsonValue::Bool(false)])),
    ]);
    let text = to_text(&v);
    assert_eq!(parse_json(&text), Some(v));
}

#[test]
fn formats_decimals() {
    assert_eq!(u64_to_dec(0), "0");
    assert_eq!(u64_to_dec(7), "7");
    assert_eq!(u64_to_dec(200), "200");
    assert_eq!(u64_to_dec(18446744073709551615), "18446744073709551615");
}
