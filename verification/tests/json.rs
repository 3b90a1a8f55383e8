use zerobounce::json::{JsonDocument, JsonValue};
use zerobounce::DecodeError;

fn parsed(body: &str) -> JsonDocument {
    JsonDocument::parse(body.as_bytes()).expect("an object")
}

#[test]
fn parse_tells_the_six_kinds_apart() {
    let document = parsed(r#"{"a":null,"b":true,"c":-1.5e3,"d":"text","e":[1,"x"],"f":{"g":1},"h":false}"#);
    assert_eq!(document.get("a"), Some(&JsonValue::Null));
    assert_eq!(document.get("b"), Some(&JsonValue::Bool(true)));
    assert_eq!(document.get("c"), Some(&JsonValue::Number));
    assert_eq!(document.get("d"), Some(&JsonValue::Text("text".to_string())));
    assert_eq!(document.get("e"), Some(&JsonValue::Array));
    assert_eq!(document.get("f"), Some(&JsonValue::Object));
    assert_eq!(document.get("h"), Some(&JsonValue::Bool(false)));
    assert_eq!(document.get("g"), None);
    assert_eq!(document.members.len(), 7);
}

#[test]
fn parse_unescapes_names_and_texts() {
    let document = parsed(r#"{"name":"a\"b\\c\né😀"}"#);
    assert_eq!(document.get("name"), Some(&JsonValue::Text("a\"b\\c\né😀".to_string())));
}

#[test]
fn parse_of_an_empty_object_has_no_members() {
    let document = parsed("{}");
    assert!(document.members.is_empty());
    assert_eq!(document.get(""), None);
}

#[test]
fn parse_keeps_the_last_of_a_repeated_name() {
    let document = parsed(r#"{"a":"first","a":"second"}"#);
    assert_eq!(document.members.len(), 1);
    assert_eq!(document.get("a"), Some(&JsonValue::Text("second".to_string())));
}

#[test]
fn parse_refuses_what_is_no_object() {
    for body in ["", "[]", "[{}]", "null", "true", "12", r#""{}""#, "{} {}", "{,}", r#"{"a":}"#, r#"{"a":1,}"#, "{'a':1}"] {
        assert_eq!(JsonDocument::parse(body.as_bytes()), Err(DecodeError::NotAnObject), "{:?}", body);
    }
}

#[test]
fn get_is_exact_about_names() {
    let document = parsed(r#"{"Credits":"1","credits":"2","":"3"}"#);
    assert_eq!(document.get("Credits"), Some(&JsonValue::Text("1".to_string())));
    assert_eq!(document.get("credits"), Some(&JsonValue::Text("2".to_string())));
    assert_eq!(document.get(""), Some(&JsonValue::Text("3".to_string())));
    assert_eq!(document.get("Credit"), None);
    assert_eq!(document.get("Credits "), None);
}

#[test]
fn get_finds_the_first_of_a_repeated_name() {
    let document = JsonDocument {
        members: vec![
            ("a".to_string(), JsonValue::Bool(true)),
            ("b".to_string(), JsonValue::Null),
            ("a".to_string(), JsonValue::Number),
        ],
    };
    assert_eq!(document.get("a"), Some(&JsonValue::Bool(true)));
    assert_eq!(document.get("b"), Some(&JsonValue::Null));
    assert_eq!(document.get("c"), None);
}

#[test]
fn required_text_wants_a_text() {
    let document = parsed(r#"{"t":"x","e":"","n":null,"b":true,"i":1}"#);
    assert_eq!(document.required_text("t"), Some("x".to_string()));
    assert_eq!(document.required_text("e"), Some(String::new()));
    assert_eq!(document.required_text("n"), None);
    assert_eq!(document.required_text("b"), None);
    assert_eq!(document.required_text("i"), None);
    assert_eq!(document.required_text("missing"), None);
}

#[test]
fn required_flag_wants_a_boolean() {
    let document = parsed(r#"{"y":true,"n":false,"t":"true","z":null,"i":1}"#);
    assert_eq!(document.required_flag("y"), Some(true));
    assert_eq!(document.required_flag("n"), Some(false));
    assert_eq!(document.required_flag("t"), None);
    assert_eq!(document.required_flag("z"), None);
    assert_eq!(document.required_flag("i"), None);
    assert_eq!(document.required_flag("missing"), None);
}

#[test]
fn optional_text_allows_null_and_absence() {
    let document = parsed(r#"{"t":"x","e":"","n":null,"b":true,"i":1,"a":[],"o":{}}"#);
    assert_eq!(document.optional_text("t"), Some(Some("x".to_string())));
    assert_eq!(document.optional_text("e"), Some(Some(String::new())));
    assert_eq!(document.optional_text("n"), Some(None));
    assert_eq!(document.optional_text("missing"), Some(None));
    assert_eq!(document.optional_text("b"), None);
    assert_eq!(document.optional_text("i"), None);
    assert_eq!(document.optional_text("a"), None);
    assert_eq!(document.optional_text("o"), None);
}
