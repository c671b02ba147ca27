use cred_schema::codec::{decode_type, encode_type};
use cred_schema::json::JsonValue;
use cred_schema::schema::SchemaValueType;

fn s(x: &str) -> String {
    x.to_string()
}

fn nested() -> SchemaValueType {
    SchemaValueType::Dict(vec![
        (s("a"), SchemaValueType::Bool),
        (
            s("b"),
            SchemaValueType::List(vec![
                SchemaValueType::Int,
                SchemaValueType::Dict(vec![(s("c"), SchemaValueType::Float)]),
            ]),
        ),
        (s("d"), SchemaValueType::Null),
        (s("e"), SchemaValueType::String),
    ])
}

#[test]
fn primitives_encode_as_bare_tags() {
    assert_eq!(encode_type(&SchemaValueType::Bool), JsonValue::String(s("Bool")));
    assert_eq!(encode_type(&SchemaValueType::Int), JsonValue::String(s("Int")));
    assert_eq!(encode_type(&SchemaValueType::Float), JsonValue::String(s("Float")));
    assert_eq!(encode_type(&SchemaValueType::String), JsonValue::String(s("String")));
    assert_eq!(encode_type(&SchemaValueType::Null), JsonValue::String(s("Null")));
}

#[test]
fn containers_encode_as_single_key_objects() {
    let encoded = encode_type(&SchemaValueType::List(vec![SchemaValueType::Bool]));
    assert_eq!(
        encoded,
        JsonValue::Object(vec![(
            s("List"),
            JsonValue::Array(vec![JsonValue::String(s("Bool"))]),
        )])
    );
    let encoded = encode_type(&SchemaValueType::Dict(vec![(s("x"), SchemaValueType::Int)]));
    assert_eq!(
        encoded,
        JsonValue::Object(vec![(
            s("Map"),
            JsonValue::Object(vec![(s("x"), JsonValue::String(s("Int")))]),
        )])
    );
}

#[test]
fn round_trip_primitives() {
    for t in [
        SchemaValueType::Bool,
        SchemaValueType::Int,
        SchemaValueType::Float,
        SchemaValueType::String,
        SchemaValueType::Null,
    ] {
        let encoded = encode_type(&t);
        assert_eq!(decode_type(&encoded), Some(t));
    }
}

#[test]
fn round_trip_nested() {
    let t = nested();
    let encoded = encode_type(&t);
    assert_eq!(decode_type(&encoded), Some(t));
}

#[test]
fn round_trip_empty_containers() {
    for t in [SchemaValueType::List(vec![]), SchemaValueType::Dict(vec![])] {
        let encoded = encode_type(&t);
        assert_eq!(decode_type(&encoded), Some(t));
    }
}

#[test]
fn unknown_tag_does_not_decode() {
    assert_eq!(decode_type(&JsonValue::String(s("Decimal"))), None);
    assert_eq!(decode_type(&JsonValue::String(s(""))), None);
    assert_eq!(decode_type(&JsonValue::String(s("bool"))), None);
}

#[test]
fn wrong_shapes_do_not_decode() {
    // A container tag must be the only key.
    let two_keys = JsonValue::Object(vec![
        (s("List"), JsonValue::Array(vec![])),
        (s("Map"), JsonValue::Object(vec![])),
    ]);
    assert_eq!(decode_type(&two_keys), None);
    // "List" must hold an array, "Map" an object.
    let list_of_string = JsonValue::Object(vec![(s("List"), JsonValue::String(s("Bool")))]);
    assert_eq!(decode_type(&list_of_string), None);
    let map_of_array = JsonValue::Object(vec![(s("Map"), JsonValue::Array(vec![]))]);
    assert_eq!(decode_type(&map_of_array), None);
    // An unknown single key does not decode.
    let wrong_key = JsonValue::Object(vec![(s("Tuple"), JsonValue::Array(vec![]))]);
    assert_eq!(decode_type(&wrong_key), None);
    // Other JSON kinds never encode a schema description.
    assert_eq!(decode_type(&JsonValue::Null), None);
    assert_eq!(decode_type(&JsonValue::Bool(true)), None);
    assert_eq!(decode_type(&JsonValue::Array(vec![])), None);
}

#[test]
fn bad_entry_fails_whole_decode() {
    let bad_list = JsonValue::Object(vec![(
        s("List"),
        JsonValue::Array(vec![JsonValue::String(s("Bool")), JsonValue::String(s("Nope"))]),
    )]);
    assert_eq!(decode_type(&bad_list), None);
    let bad_map = JsonValue::Object(vec![(
        s("Map"),
        JsonValue::Object(vec![(s("x"), JsonValue::Bool(true))]),
    )]);
    assert_eq!(decode_type(&bad_map), None);
}

#[test]
fn round_trip_keeps_duplicate_keys() {
    // A field map is a plain pair list: even a name occurring twice must
    // survive the round trip unchanged.
    let t = SchemaValueType::Dict(vec![
        (s("a"), SchemaValueType::Bool),
        (s("a"), SchemaValueType::Int),
    ]);
    let encoded = encode_type(&t);
    assert_eq!(decode_type(&encoded), Some(t));
}

#[test]
fn round_trip_deep_nesting() {
    let mut t = SchemaValueType::Bool;
    for _ in 0..12 {
        t = SchemaValueType::List(vec![SchemaValueType::Dict(vec![(s("x"), t)])]);
    }
    let encoded = encode_type(&t);
    assert_eq!(decode_type(&encoded), Some(t));
}
