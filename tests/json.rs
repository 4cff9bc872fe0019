use xarxa::json::{get, text_field_or, to_json_text, unsigned_field_or_zero, JsonNumber, JsonValue};

fn s(t: &str) -> String {
    t.to_string()
}

#[test]
fn strings_are_escaped() {
    let v = JsonValue::String(s("a\"b\\c\n\t\r\u{8}\u{c}\u{1}\u{1f}é"));
    assert_eq!(to_json_text(&v), "\"a\\\"b\\\\c\\n\\t\\r\\b\\f\\u0001\\u001fé\"");
}

#[test]
fn compound_values_are_compact() {
    let v = JsonValue::Object(vec![
        (s("a"), JsonValue::Array(vec![JsonValue::Null, JsonValue::Bool(true)])),
        (s("b"), JsonValue::Number(JsonNumber::PosInt(18446744073709551615))),
        (s("c"), JsonValue::Number(JsonNumber::NegInt(-9223372036854775808))),
        (s("d"), JsonValue::Object(vec![])),
    ]);
    assert_eq!(
        to_json_text(&v),
        "{\"a\":[null,true],\"b\":18446744073709551615,\"c\":-9223372036854775808,\"d\":{}}"
    );
}

#[test]
fn zero_is_written() {
    assert_eq!(to_json_text(&JsonValue::Number(JsonNumber::PosInt(0))), "0");
    assert_eq!(to_json_text(&JsonValue::Array(vec![])), "[]");
}

#[test]
fn fields_are_read() {
    let v = JsonValue::Object(vec![
        (s("name"), JsonValue::String(s("wf"))),
        (s("run_id"), JsonValue::Number(JsonNumber::PosInt(7))),
        (s("neg"), JsonValue::Number(JsonNumber::NegInt(-7))),
        (s("name"), JsonValue::String(s("second"))),
    ]);
    assert_eq!(get(&v, "name"), Some(&JsonValue::String(s("wf"))));
    assert_eq!(get(&v, "absent"), None);
    assert_eq!(get(&JsonValue::Null, "name"), None);
    assert_eq!(text_field_or(&v, "name", "default"), "wf");
    assert_eq!(text_field_or(&v, "run_id", "default"), "default");
    assert_eq!(unsigned_field_or_zero(&v, "run_id"), 7);
    assert_eq!(unsigned_field_or_zero(&v, "neg"), 0);
    assert_eq!(unsigned_field_or_zero(&v, "name"), 0);
}
