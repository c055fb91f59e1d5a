use hubcaps::json::Json;
use hubcaps::json_parse::parse_json;

fn encoded(j: &Json) -> String {
    j.encode()
}

#[test]
fn encode_scalars() {
    assert_eq!(encoded(&Json::Null), "null");
    assert_eq!(encoded(&Json::Bool(true)), "true");
    assert_eq!(encoded(&Json::Bool(false)), "false");
    assert_eq!(encoded(&Json::Int(0)), "0");
    assert_eq!(encoded(&Json::Int(42)), "42");
    assert_eq!(encoded(&Json::Int(-7)), "-7");
    assert_eq!(encoded(&Json::Int(i64::MIN)), "-9223372036854775808");
    assert_eq!(encoded(&Json::Str("plain".to_string())), "\"plain\"");
}

#[test]
fn encode_escapes() {
    assert_eq!(
        encoded(&Json::Str("say \"hi\"\\now".to_string())),
        r#""say \"hi\"\\now""#
    );
    assert_eq!(
        encoded(&Json::Str("tab\there\nline".to_string())),
        "\"tab\\there\\nline\""
    );
    assert_eq!(encoded(&Json::Str("\u{1}".to_string())), "\"\\u0001\"");
    assert_eq!(encoded(&Json::Str("caf\u{e9}".to_string())), "\"caf\u{e9}\"");
}

#[test]
fn encode_composites() {
    let arr = Json::Arr(vec![Json::Int(1), Json::Str("two".to_string()), Json::Null]);
    assert_eq!(encoded(&arr), r#"[1,"two",null]"#);
    let obj = Json::Obj(vec![
        ("a".to_string(), Json::Bool(true)),
        ("b".to_string(), Json::Arr(vec![])),
    ]);
    assert_eq!(encoded(&obj), r#"{"a":true,"b":[]}"#);
    assert_eq!(encoded(&Json::Obj(vec![])), "{}");
}

#[test]
fn parse_scalars() {
    assert_eq!(encoded(&parse_json("null").unwrap()), "null");
    assert_eq!(encoded(&parse_json(" true ").unwrap()), "true");
    assert_eq!(encoded(&parse_json("false").unwrap()), "false");
    assert_eq!(encoded(&parse_json("123").unwrap()), "123");
    assert_eq!(encoded(&parse_json("-45").unwrap()), "-45");
    assert_eq!(encoded(&parse_json("\"hello\"").unwrap()), "\"hello\"");
}

#[test]
fn parse_strings_with_escapes() {
    assert_eq!(
        encoded(&parse_json(r#""a\"b\\c\/d""#).unwrap()),
        r#""a\"b\\c/d""#
    );
    assert_eq!(
        encoded(&parse_json(r#""x\ty\nz""#).unwrap()),
        "\"x\\ty\\nz\""
    );
}

#[test]
fn parse_composites_with_whitespace() {
    let text = " { \"items\" : [ 1 , 2 , 3 ] , \"next\" : null } ";
    assert_eq!(
        encoded(&parse_json(text).unwrap()),
        r#"{"items":[1,2,3],"next":null}"#
    );
    assert_eq!(encoded(&parse_json("[]").unwrap()), "[]");
    assert_eq!(encoded(&parse_json("[ ]").unwrap()), "[]");
    assert_eq!(encoded(&parse_json("{ }").unwrap()), "{}");
}

#[test]
fn parse_refuses_malformed_text() {
    for text in [
        "", "{", "[", "tru", "nul", "\"open", "[1,]", "{\"a\":}", "{\"a\" 1}", "1 2",
        "[1] extra", "\"bad \u{1} control\"", "--1", "-", "9999999999999999999999",
    ] {
        assert!(parse_json(text).is_none(), "accepted: {:?}", text);
    }
}

#[test]
fn parse_encode_round_trip() {
    for text in [
        "null",
        "true",
        "-12",
        "\"quote \\\" here\"",
        r#"{"message":"Validation Failed","errors":[{"resource":"Release","code":"custom"}]}"#,
        r#"[[1,2],{"k":[true,null]}]"#,
    ] {
        let v = parse_json(text).unwrap();
        assert_eq!(encoded(&v), text);
    }
}
