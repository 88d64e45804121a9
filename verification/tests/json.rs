use llm_query::json::{Json, JsonNumber, Member};
use llm_query::provider::Provider;
use llm_query::response::extract_response;

fn member(key: &str, value: Json) -> Member {
    Member { key: key.to_string(), value }
}

fn sample() -> Json {
    Json::Object(vec![
        member("a", Json::Number(JsonNumber::PosInt(1))),
        member("b", Json::Array(vec![Json::Bool(true), Json::text("x")])),
        member("a", Json::Null),
    ])
}

#[test]
fn member_finds_the_first_entry_of_that_name() {
    let json = sample();
    assert_eq!(json.member("a"), Some(&Json::Number(JsonNumber::PosInt(1))));
    assert_eq!(json.member("c"), None);
    assert_eq!(json.member(""), None);
    assert_eq!(Json::Array(vec![sample()]).member("a"), None);
    assert_eq!(Json::text("a").member("a"), None);
}

#[test]
fn element_indexes_arrays_only() {
    let list = Json::array(vec![Json::Null, Json::Bool(false)]);
    assert_eq!(list.element(0), Some(&Json::Null));
    assert_eq!(list.element(1), Some(&Json::Bool(false)));
    assert_eq!(list.element(2), None);
    assert_eq!(sample().element(0), None);
}

#[test]
fn typed_readers() {
    assert_eq!(Json::text("x").as_text(), Some("x"));
    assert_eq!(Json::Null.as_text(), None);
    assert_eq!(Json::Number(JsonNumber::PosInt(9)).as_unsigned(), Some(9));
    assert_eq!(Json::Number(JsonNumber::NegInt(-9)).as_unsigned(), None);
    assert_eq!(Json::Number(JsonNumber::Real(0)).as_unsigned(), None);
    assert_eq!(Json::text("9").as_unsigned(), None);
    assert_eq!(Json::array(vec![Json::Null]).as_array(), Some(&vec![Json::Null]));
    assert_eq!(sample().as_array(), None);
}

#[test]
fn constructors() {
    assert_eq!(Json::text("x"), Json::String("x".to_string()));
    assert_eq!(Json::array(vec![]), Json::Array(vec![]));
    assert_eq!(Json::object(vec![Member::new("k", Json::Null)]), Json::Object(vec![member("k", Json::Null)]));
}

#[test]
fn parsed_bodies_keep_escapes_and_unicode() {
    let body = "{\"response\":\"tab\\there \\u00e9 \\\\ \\\"q\\\" ✓\"}";
    assert_eq!(
        extract_response(Provider::LocalGenerate, 200, body),
        Ok("tab\there é \\ \"q\" ✓".to_string())
    );
}

#[test]
fn parsed_bodies_with_equal_keys_keep_the_last() {
    let body = "{\"response\":\"one\",\"response\":\"two\"}";
    assert_eq!(extract_response(Provider::LocalGenerate, 200, body), Ok("two".to_string()));
}
