use plaza_term_rs::json::{decode, Json};

#[test]
fn decode_reads_every_kind_of_value() {
    assert_eq!(decode(b"null"), Some(Json::Null));
    assert_eq!(decode(b"true"), Some(Json::Bool(true)));
    assert_eq!(decode(b"12.5"), Some(Json::Number("12.5".to_string())));
    assert_eq!(decode(b"-3"), Some(Json::Number("-3".to_string())));
    assert_eq!(decode(b"\"hi\""), Some(Json::Text("hi".to_string())));
    assert_eq!(
        decode(b"[1, \"a\", []]"),
        Some(Json::Array(vec![
            Json::Number("1".to_string()),
            Json::Text("a".to_string()),
            Json::Array(vec![])
        ]))
    );
    assert_eq!(
        decode(b"{\"k\": {\"n\": null}}"),
        Some(Json::Object(vec![(
            "k".to_string(),
            Json::Object(vec![("n".to_string(), Json::Null)])
        )]))
    );
}

#[test]
fn decode_rejects_what_is_not_one_document() {
    assert_eq!(decode(b""), None);
    assert_eq!(decode(b"{"), None);
    assert_eq!(decode(b"{\"a\": 1} trailing"), None);
    assert_eq!(decode(b"<html></html>"), None);
    assert_eq!(decode(&[0xff, 0xfe]), None);
}

#[test]
fn decode_unescapes_strings() {
    assert_eq!(decode(b"\"a\\u0041\\n\""), Some(Json::Text("aA\n".to_string())));
}

#[test]
fn get_finds_members_of_objects_only() {
    let object = Json::Object(vec![
        ("a".to_string(), Json::Number("1".to_string())),
        ("b".to_string(), Json::Text("x".to_string())),
    ]);
    assert_eq!(object.get("a"), Some(&Json::Number("1".to_string())));
    assert_eq!(object.get("b"), Some(&Json::Text("x".to_string())));
    assert_eq!(object.get("c"), None);
    assert_eq!(Json::Text("a".to_string()).get("a"), None);
    assert_eq!(Json::Array(vec![object]).get("a"), None);
}

#[test]
fn get_takes_the_first_of_equal_names() {
    let object = Json::Object(vec![
        ("a".to_string(), Json::Bool(true)),
        ("a".to_string(), Json::Bool(false)),
    ]);
    assert_eq!(object.get("a"), Some(&Json::Bool(true)));
}

#[test]
fn as_str_reads_strings_only() {
    assert_eq!(Json::Text("x".to_string()).as_str(), Some("x"));
    assert_eq!(Json::Number("7".to_string()).as_str(), None);
    assert_eq!(Json::Null.as_str(), None);
}

#[test]
fn first_or_self_steps_into_non_empty_arrays() {
    let inner = Json::Text("x".to_string());
    assert_eq!(
        Json::Array(vec![Json::Text("x".to_string()), Json::Null]).first_or_self(),
        &inner
    );
    assert_eq!(Json::Array(vec![]).first_or_self(), &Json::Array(vec![]));
    assert_eq!(inner.first_or_self(), &inner);
}

#[test]
fn is_object_tells_objects_apart() {
    assert!(Json::Object(vec![]).is_object());
    assert!(!Json::Array(vec![]).is_object());
    assert!(!Json::Null.is_object());
}
