use xarxa::bridge::{json_to_kvpairs, KvPair, KvValue};
use xarxa::json::{JsonNumber, JsonValue};

fn s(t: &str) -> String {
    t.to_string()
}

fn text(t: &str) -> JsonValue {
    JsonValue::String(s(t))
}

fn pair(k: &str, v: &str) -> KvPair {
    KvPair { key: s(k), value: KvValue::Str(s(v)) }
}

fn kv_object(k: JsonValue, v: JsonValue) -> JsonValue {
    JsonValue::Object(vec![(s("key"), k), (s("value"), v)])
}

#[test]
fn object_members_become_pairs() {
    let v = JsonValue::Object(vec![
        (s("a"), text("1")),
        (s("b"), JsonValue::Number(JsonNumber::PosInt(2))),
    ]);
    assert_eq!(json_to_kvpairs(&v), vec![pair("a", "1"), pair("b", "2")]);
}

#[test]
fn object_scalars_and_nested_values_are_stringified() {
    let v = JsonValue::Object(vec![
        (s("t"), JsonValue::Bool(true)),
        (s("n"), JsonValue::Null),
        (s("neg"), JsonValue::Number(JsonNumber::NegInt(-5))),
        (s("f"), JsonValue::Number(JsonNumber::Float(s("1.5")))),
        (s("arr"), JsonValue::Array(vec![JsonValue::Number(JsonNumber::PosInt(1)), text("x")])),
        (s("obj"), JsonValue::Object(vec![(s("k"), JsonValue::Bool(false))])),
    ]);
    assert_eq!(
        json_to_kvpairs(&v),
        vec![
            pair("t", "true"),
            pair("n", "null"),
            pair("neg", "-5"),
            pair("f", "1.5"),
            pair("arr", "[1,\"x\"]"),
            pair("obj", "{\"k\":false}"),
        ]
    );
}

#[test]
fn array_of_key_value_objects_becomes_pairs() {
    let v = JsonValue::Array(vec![
        kv_object(text("a"), text("1")),
        kv_object(text("b"), JsonValue::Number(JsonNumber::PosInt(2))),
        JsonValue::Object(vec![(s("key"), text("only"))]),
        text("stray"),
        kv_object(JsonValue::Bool(true), text("v")),
    ]);
    assert_eq!(json_to_kvpairs(&v), vec![pair("a", "1"), pair("b", ""), pair("", "v")]);
}

#[test]
fn other_shapes_give_no_pairs() {
    assert_eq!(json_to_kvpairs(&text("x")), vec![]);
    assert_eq!(json_to_kvpairs(&JsonValue::Null), vec![]);
    assert_eq!(json_to_kvpairs(&JsonValue::Number(JsonNumber::PosInt(3))), vec![]);
    assert_eq!(json_to_kvpairs(&JsonValue::Array(vec![])), vec![]);
}
