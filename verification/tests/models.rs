use email_cli::models::{deserialize_string_vec, JsonValue, StringVecError};

#[test]
fn string_vec_absent_or_null_is_empty() {
    assert_eq!(deserialize_string_vec(None), Ok(vec![]));
    assert_eq!(deserialize_string_vec(Some(JsonValue::Null)), Ok(vec![]));
}

#[test]
fn string_vec_single_string() {
    assert_eq!(
        deserialize_string_vec(Some(JsonValue::Str("a@example.com".to_string()))),
        Ok(vec!["a@example.com".to_string()])
    );
}

#[test]
fn string_vec_array_keeps_strings_only() {
    let v = JsonValue::Array(vec![
        JsonValue::Str("a".to_string()),
        JsonValue::Number("1".to_string()),
        JsonValue::Null,
        JsonValue::Str("b".to_string()),
    ]);
    assert_eq!(deserialize_string_vec(Some(v)), Ok(vec!["a".to_string(), "b".to_string()]));
}

#[test]
fn string_vec_refuses_other_values() {
    assert_eq!(
        deserialize_string_vec(Some(JsonValue::Bool(true))),
        Err(StringVecError::ExpectedStringArrayOrNull)
    );
    assert_eq!(
        deserialize_string_vec(Some(JsonValue::Object(vec![]))),
        Err(StringVecError::ExpectedStringArrayOrNull)
    );
}
