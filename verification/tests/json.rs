use completion_gateway::json::Json;

fn doc(text: &str) -> Json {
    Json::parse(text.as_bytes()).unwrap()
}

#[test]
fn parse_reads_every_kind_of_value() {
    assert_eq!(doc("null"), Json::Null);
    assert_eq!(doc("true"), Json::Bool(true));
    assert_eq!(doc("\"a\\nb\""), Json::Text("a\nb".to_string()));
    assert_eq!(doc("7"), Json::Number(serde_json::Number::from(7u64)));
    assert_eq!(
        doc("[null, false]"),
        Json::Array(vec![Json::Null, Json::Bool(false)])
    );
    assert_eq!(
        doc("{\"k\": \"v\"}"),
        Json::Object(vec![("k".to_string(), Json::Text("v".to_string()))])
    );
}

#[test]
fn parse_refuses_what_is_no_document() {
    assert_eq!(Json::parse(b""), None);
    assert_eq!(Json::parse(b"{"), None);
    assert_eq!(Json::parse(b"{\"a\": 1} trailing"), None);
    assert_eq!(Json::parse(b"not json"), None);
    assert_eq!(Json::parse(&[0x22, 0xff, 0x22]), None);
}

#[test]
fn parse_keeps_the_last_of_equal_keys() {
    let json = doc("{\"a\": 1, \"a\": \"second\"}");
    assert_eq!(json.get_str("a"), Some("second"));
}

#[test]
fn to_text_writes_compact_json() {
    let json = Json::Object(vec![
        ("text".to_string(), Json::Text("a \"b\"".to_string())),
        ("list".to_string(), Json::Array(vec![Json::Null, Json::Bool(true)])),
        ("n".to_string(), Json::Number(serde_json::Number::from(-3i64))),
    ]);
    assert_eq!(
        json.to_text(),
        "{\"list\":[null,true],\"n\":-3,\"text\":\"a \\\"b\\\"\"}"
    );
    assert_eq!(Json::Null.to_text(), "null");
    assert_eq!(Json::text("x").to_text(), "\"x\"");
}

#[test]
fn to_text_and_parse_agree() {
    let text = "{\"a\":[1,2.5,-7,\"x\"],\"b\":{\"c\":null,\"d\":false}}";
    assert_eq!(doc(text).to_text(), text);
}

#[test]
fn to_text_keeps_the_last_of_equal_keys() {
    let json = Json::Object(vec![
        ("a".to_string(), Json::Bool(false)),
        ("a".to_string(), Json::Bool(true)),
    ]);
    assert_eq!(json.to_text(), "{\"a\":true}");
    assert_eq!(json.get("a"), Some(&Json::Bool(true)));
}

#[test]
fn get_finds_members_of_objects_only() {
    let json = Json::Object(vec![
        ("a".to_string(), Json::Null),
        ("b".to_string(), Json::Bool(true)),
    ]);
    assert_eq!(json.get("a"), Some(&Json::Null));
    assert_eq!(json.get("b"), Some(&Json::Bool(true)));
    assert_eq!(json.get("c"), None);
    assert_eq!(json.get(""), None);
    assert_eq!(Json::Null.get("a"), None);
    assert_eq!(Json::Array(vec![Json::Null]).get("0"), None);
    assert_eq!(Json::text("a").get("a"), None);
}

#[test]
fn at_finds_elements_of_arrays_only() {
    let json = Json::Array(vec![Json::Bool(true), Json::Null]);
    assert_eq!(json.at(0), Some(&Json::Bool(true)));
    assert_eq!(json.at(1), Some(&Json::Null));
    assert_eq!(json.at(2), None);
    assert_eq!(Json::Array(vec![]).at(0), None);
    assert_eq!(Json::Object(vec![("0".to_string(), Json::Null)]).at(0), None);
}

#[test]
fn as_str_reads_strings_only() {
    assert_eq!(Json::text("abc").as_str(), Some("abc"));
    assert_eq!(Json::text("").as_str(), Some(""));
    assert_eq!(Json::Null.as_str(), None);
    assert_eq!(Json::Bool(true).as_str(), None);
    assert_eq!(doc("12").as_str(), None);
}

#[test]
fn get_str_reads_string_members_only() {
    let json = doc("{\"s\": \"text\", \"n\": 1, \"o\": {\"s\": \"inner\"}}");
    assert_eq!(json.get_str("s"), Some("text"));
    assert_eq!(json.get_str("n"), None);
    assert_eq!(json.get_str("o"), None);
    assert_eq!(json.get_str("missing"), None);
}

#[test]
fn object_keeps_its_members() {
    let json = Json::object(vec![("k".to_string(), Json::text("v"))]);
    assert_eq!(json, Json::Object(vec![("k".to_string(), Json::Text("v".to_string()))]));
}

#[test]
fn array_keeps_its_elements() {
    let json = Json::array(vec![Json::Null, Json::text("x")]);
    assert_eq!(json, Json::Array(vec![Json::Null, Json::Text("x".to_string())]));
    assert_eq!(json.to_text(), "[null,\"x\"]");
}
