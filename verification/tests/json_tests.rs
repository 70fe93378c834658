use docu_mcp::json::Json;

fn number(n: u64) -> Json {
    Json::Number(serde_json::Number::from(n))
}

#[test]
fn parse_reads_an_object() {
    let parsed = Json::parse("{\"a\": \"b\"}").unwrap();
    assert_eq!(parsed, Json::Object(vec![("a".to_string(), Json::Text("b".to_string()))]));
}

#[test]
fn parse_reads_every_kind_of_value() {
    let parsed = Json::parse("[null, true, 7, \"x\", [], {}]").unwrap();
    assert_eq!(
        parsed,
        Json::Array(vec![
            Json::Null,
            Json::Bool(true),
            number(7),
            Json::Text("x".to_string()),
            Json::Array(vec![]),
            Json::Object(vec![]),
        ])
    );
}

#[test]
fn parse_keeps_the_last_of_a_repeated_key() {
    let parsed = Json::parse("{\"a\": 1, \"a\": 2}").unwrap();
    assert_eq!(parsed, Json::Object(vec![("a".to_string(), number(2))]));
}

#[test]
fn parse_refuses_what_is_no_json() {
    let refused = Json::parse("not json");
    assert!(refused.is_err());
    assert!(!refused.unwrap_err().is_empty());
}

#[test]
fn render_writes_compact_text() {
    let doc = Json::Object(vec![
        ("b".to_string(), Json::Bool(true)),
        ("a".to_string(), Json::Array(vec![Json::Null, Json::Text("x".to_string())])),
    ]);
    assert_eq!(doc.render().unwrap(), "{\"a\":[null,\"x\"],\"b\":true}");
}

#[test]
fn render_escapes_strings() {
    let doc = Json::text("a\"b\\c\n");
    assert_eq!(doc.render().unwrap(), "\"a\\\"b\\\\c\\n\"");
}

#[test]
fn render_keeps_the_last_of_a_repeated_key() {
    let doc = Json::Object(vec![("a".to_string(), number(1)), ("a".to_string(), number(2))]);
    assert_eq!(doc.render().unwrap(), "{\"a\":2}");
}

#[test]
fn render_keeps_the_type_of_a_number() {
    assert_eq!(number(7).render().unwrap(), "7");
    assert_eq!(Json::text("7").render().unwrap(), "\"7\"");
    let real = Json::parse("1.5").unwrap();
    assert_eq!(real.render().unwrap(), "1.5");
    let negative = Json::parse("-12").unwrap();
    assert_eq!(negative.render().unwrap(), "-12");
}

#[test]
fn member_finds_the_last_value_of_a_key() {
    let doc = Json::Object(vec![
        ("a".to_string(), number(1)),
        ("b".to_string(), number(2)),
        ("a".to_string(), number(3)),
    ]);
    assert_eq!(doc.member("a"), Some(&number(3)));
    assert_eq!(doc.member("b"), Some(&number(2)));
    assert_eq!(doc.member("c"), None);
    assert_eq!(number(1).member("a"), None);
}

#[test]
fn text_member_wants_a_string() {
    let doc = Json::object().with("name", Json::text("x")).with("count", number(2));
    assert_eq!(doc.text_member("name"), Some("x".to_string()));
    assert_eq!(doc.text_member("count"), None);
    assert_eq!(doc.text_member("missing"), None);
    assert_eq!(Json::Null.text_member("name"), None);
}

#[test]
fn optional_text_member_takes_null_for_nothing() {
    let doc = Json::object().with("a", Json::text("x")).with("b", Json::Null).with("c", number(1));
    assert_eq!(doc.optional_text_member("a"), Some(Some("x".to_string())));
    assert_eq!(doc.optional_text_member("b"), Some(None));
    assert_eq!(doc.optional_text_member("c"), None);
    assert_eq!(doc.optional_text_member("d"), Some(None));
    assert_eq!(Json::Array(vec![]).optional_text_member("a"), None);
}

#[test]
fn with_replaces_and_appended_adds() {
    let doc = Json::object().with("a", number(1)).with("a", number(2));
    assert_eq!(doc.member("a"), Some(&number(2)));
    let list = Json::array().appended(number(1)).appended(number(2));
    assert_eq!(list, Json::Array(vec![number(1), number(2)]));
    assert_eq!(Json::Null.with("a", number(1)), Json::Null);
    assert_eq!(Json::Null.appended(number(1)), Json::Null);
}

#[test]
fn clone_copies_the_whole_document() {
    let doc = Json::parse("{\"a\": [1, {\"b\": null}], \"c\": \"d\", \"e\": 2.5}").unwrap();
    assert_eq!(doc.clone(), doc);
}

#[test]
fn as_text_and_as_array_tell_the_kinds_apart() {
    assert_eq!(Json::text("x").as_text(), Some("x"));
    assert_eq!(Json::Null.as_text(), None);
    assert_eq!(Json::Array(vec![Json::Null]).as_array(), Some(&vec![Json::Null]));
    assert_eq!(Json::text("x").as_array(), None);
    assert!(Json::object().is_object());
    assert!(!Json::array().is_object());
}
