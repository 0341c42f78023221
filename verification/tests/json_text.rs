use dev_lens_relay::json::Json;
use dev_lens_relay::text::parse_json;

fn text(s: &str) -> Json {
    Json::Str(s.to_string())
}

#[test]
fn parses_scalars() {
    assert_eq!(parse_json("null"), Some(Json::Null));
    assert_eq!(parse_json("true"), Some(Json::Bool(true)));
    assert_eq!(parse_json("false"), Some(Json::Bool(false)));
    assert_eq!(parse_json("\"hello\""), Some(text("hello")));
    assert_eq!(parse_json("0"), Some(Json::Unsigned(0)));
    assert_eq!(parse_json("200"), Some(Json::Unsigned(200)));
}

#[test]
fn largest_whole_number_is_kept() {
    assert_eq!(
        parse_json("18446744073709551615"),
        Some(Json::Unsigned(u64::MAX))
    );
}

#[test]
fn other_numbers_lose_their_value() {
    assert_eq!(parse_json("-1"), Some(Json::OtherNumber));
    assert_eq!(parse_json("1.5"), Some(Json::OtherNumber));
    assert_eq!(parse_json("200.0"), Some(Json::OtherNumber));
    assert_eq!(parse_json("1e2"), Some(Json::OtherNumber));
    assert_eq!(parse_json("18446744073709551616"), Some(Json::OtherNumber));
}

#[test]
fn parses_arrays_in_order() {
    assert_eq!(
        parse_json("[1, \"two\", [3], null]"),
        Some(Json::Array(vec![
            Json::Unsigned(1),
            text("two"),
            Json::Array(vec![Json::Unsigned(3)]),
            Json::Null,
        ]))
    );
    assert_eq!(parse_json("[]"), Some(Json::Array(vec![])));
}

#[test]
fn parses_nested_objects() {
    let doc = parse_json("{\"outer\": {\"inner\": [true, {\"deep\": \"x\"}]}}").unwrap();
    let outer = doc.field("outer").unwrap();
    let inner = outer.field("inner").unwrap();
    assert_eq!(
        inner,
        &Json::Array(vec![
            Json::Bool(true),
            Json::Object(vec![("deep".to_string(), text("x"))]),
        ])
    );
    assert_eq!(doc.field("inner"), None);
}

#[test]
fn string_escapes_are_decoded() {
    assert_eq!(
        parse_json("\"a\\n\\\"b\\\" \\u00e9\""),
        Some(text("a\n\"b\" \u{e9}"))
    );
}

#[test]
fn repeated_member_keeps_last_value() {
    let doc = parse_json("{\"a\": 1, \"b\": 2, \"a\": 3}").unwrap();
    assert_eq!(doc.field("a"), Some(&Json::Unsigned(3)));
    assert_eq!(doc.field("b"), Some(&Json::Unsigned(2)));
    match doc {
        Json::Object(members) => assert_eq!(members.len(), 2),
        other => panic!("not an object: {:?}", other),
    }
}

#[test]
fn malformed_text_is_refused() {
    assert_eq!(parse_json(""), None);
    assert_eq!(parse_json("this is not json"), None);
    assert_eq!(parse_json("{\"a\": }"), None);
    assert_eq!(parse_json("{\"a\": 1"), None);
    assert_eq!(parse_json("[1, 2,]"), None);
    assert_eq!(parse_json("{\"a\": 1} trailing"), None);
    assert_eq!(parse_json("{'a': 1}"), None);
}

#[test]
fn surrounding_whitespace_is_accepted() {
    assert_eq!(parse_json("  \n {\"a\": 1}\t "), parse_json("{\"a\":1}"));
}

#[test]
fn field_finds_last_member_of_that_name() {
    let doc = Json::Object(vec![
        ("a".to_string(), Json::Unsigned(1)),
        ("b".to_string(), Json::Unsigned(2)),
        ("a".to_string(), Json::Unsigned(3)),
    ]);
    assert_eq!(doc.field("a"), Some(&Json::Unsigned(3)));
    assert_eq!(doc.field("b"), Some(&Json::Unsigned(2)));
    assert_eq!(doc.field("c"), None);
    assert_eq!(doc.field("A"), None);
}

#[test]
fn field_of_a_document_that_is_no_object_is_none() {
    assert_eq!(Json::Null.field("a"), None);
    assert_eq!(text("a").field("a"), None);
    assert_eq!(Json::Array(vec![text("a")]).field("a"), None);
    assert_eq!(Json::Object(vec![]).field("a"), None);
}
