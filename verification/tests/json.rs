use local_agent::json::{parse_json, Json};

fn text(s: &str) -> Json {
    Json::Text(s.to_string())
}

#[test]
fn every_kind_of_value_is_read() {
    let value = parse_json(r#"{"a":[null,true,1.5,"x"],"b":{}}"#).unwrap();
    assert_eq!(
        value,
        Json::Object(vec![
            (
                "a".to_string(),
                Json::Array(vec![
                    Json::Null,
                    Json::Bool(true),
                    Json::Number("1.5".to_string()),
                    text("x"),
                ]),
            ),
            ("b".to_string(), Json::Object(Vec::new())),
        ])
    );
}

#[test]
fn text_that_is_not_json_is_refused() {
    assert_eq!(parse_json("{"), None);
    assert_eq!(parse_json(""), None);
    assert_eq!(parse_json("[1,]"), None);
    assert_eq!(parse_json("{} x"), None);
}

#[test]
fn escapes_are_resolved() {
    assert_eq!(parse_json(r#""a\né""#), Some(text("a\né")));
}

#[test]
fn the_last_of_two_members_with_one_key_counts() {
    let value = parse_json(r#"{"k":"first","k":"second"}"#).unwrap();
    assert_eq!(value, Json::Object(vec![("k".to_string(), text("second"))]));
    assert_eq!(value.get_str("k"), Some("second".to_string()));
}

#[test]
fn members_are_found_by_key_and_kind() {
    let value = parse_json(r#"{"s":"x","t":true,"l":[1,2]}"#).unwrap();
    assert_eq!(value.get_str("s"), Some("x".to_string()));
    assert_eq!(value.get_str("t"), None);
    assert_eq!(value.get_str("missing"), None);
    assert_eq!(value.get_bool("t"), Some(true));
    assert_eq!(value.get_bool("s"), None);
    assert_eq!(value.get_array("l").map(|items| items.len()), Some(2));
    assert!(value.get_array("s").is_none());
    assert_eq!(Json::Null.get_str("s"), None);
}

#[test]
fn a_clone_is_equal() {
    let value = parse_json(r#"[{"a":[1,{"b":null}]},"x"]"#).unwrap();
    assert_eq!(value.clone(), value);
}
