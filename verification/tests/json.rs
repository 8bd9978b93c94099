use ton_client::json::Json;

#[test]
fn parsed_and_written_again() {
    let doc = Json::parse("{\"b\": [1, -2, true, null, 2.5], \"a\": \"x\"}").unwrap();
    assert_eq!(doc.text(), "{\"a\":\"x\",\"b\":[1,-2,true,null,2.5]}");
}

#[test]
fn error_is_the_text_of_the_parser() {
    let expected = serde_json::from_str::<serde_json::Value>("{").unwrap_err().to_string();
    assert_eq!(Json::parse("{").unwrap_err(), expected);
}

#[test]
fn values_go_there_and_back() {
    let text = "{\"k\":{\"deep\":[[],{}]},\"n\":18446744073709551615,\"z\":null}";
    let value: serde_json::Value = serde_json::from_str(text).unwrap();
    let doc = Json::from_value(value.clone());
    assert_eq!(doc.to_value(), value);
    assert_eq!(doc.text(), text);
    assert_eq!(doc.clone().text(), text);
}

#[test]
fn fields_are_read() {
    let doc = Json::parse("{\"s\": \"x\", \"i\": -7, \"f\": 1.5}").unwrap();
    assert_eq!(doc.get_str("s"), Some("x".to_owned()));
    assert_eq!(doc.get_str("i"), None);
    assert_eq!(doc.get_i64("i"), Some(-7));
    assert_eq!(doc.get_i64("f"), None);
    assert_eq!(doc.get_i64("missing"), None);
    assert!(doc.get("missing").is_none());
    assert!(matches!(doc.get_or_null("missing"), Json::Null));
    assert_eq!(doc.get_or_null("s").text(), "\"x\"");
    assert!(Json::Str("x".to_owned()).get("s").is_none());
}

#[test]
fn a_number_beyond_64_bits_has_no_integer() {
    let doc = Json::parse("{\"n\": 9223372036854775808}").unwrap();
    assert_eq!(doc.get_i64("n"), None);
    assert_eq!(doc.text(), "{\"n\":9223372036854775808}");
    let doc = Json::parse("{\"n\": 9223372036854775807}").unwrap();
    assert_eq!(doc.get_i64("n"), Some(i64::MAX));
}

#[test]
fn a_later_entry_replaces_an_earlier_one() {
    let doc = Json::object("k", Json::Int(1)).with("k", Json::Int(2)).with("l", Json::Bool(true));
    assert_eq!(doc.get_i64("k"), Some(2));
    assert_eq!(doc.text(), "{\"k\":2,\"l\":true}");
    assert_eq!(Json::empty_object().text(), "{}");
}

#[test]
fn keys_go_into_objects_and_null() {
    assert!(Json::Null.takes_keys());
    assert!(Json::empty_object().takes_keys());
    assert!(!Json::Array(Vec::new()).takes_keys());
    assert!(!Json::Str(String::new()).takes_keys());
}
