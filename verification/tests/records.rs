use cred_schema::json::JsonValue;
use cred_schema::records::{Clean, Credential, CryptographicKeys, ErrorMessage, IdObj, Schema,
    WithID};
use cred_schema::schema::SchemaValueType;

fn s(x: &str) -> String {
    x.to_string()
}

#[test]
fn new_with_new_id_keeps_fields() {
    let schema = Schema {
        id: None,
        schema: Some(vec![(s("a"), SchemaValueType::Bool)]),
    };
    let renumbered = schema.new_with_new_id(12);
    assert_eq!(renumbered.id, Some(12));
    assert_eq!(renumbered.schema, schema.schema);

    let key = CryptographicKeys { id: Some(1), public_key: Some(s("k")) };
    let renumbered = key.new_with_new_id(9);
    assert_eq!(renumbered.id, Some(9));
    assert_eq!(renumbered.public_key, Some(s("k")));

    let cred = Credential {
        id: None,
        schema_id: Some(4),
        public_key_id: Some(5),
        finger_print: Some(s("fp")),
        data: Some(JsonValue::Bool(true)),
    };
    let renumbered = cred.new_with_new_id(77);
    assert_eq!(renumbered.id, Some(77));
    assert_eq!(renumbered.schema_id, Some(4));
    assert_eq!(renumbered.public_key_id, Some(5));
    assert_eq!(renumbered.finger_print, Some(s("fp")));
    assert_eq!(renumbered.data, Some(JsonValue::Bool(true)));
}

#[test]
fn new_clean_holds_only_the_id() {
    let schema = Schema::new_clean(3);
    assert_eq!(schema.id, Some(3));
    assert_eq!(schema.schema, None);

    let key = CryptographicKeys::new_clean(4);
    assert_eq!(key.id, Some(4));
    assert_eq!(key.public_key, None);

    let cred = Credential::new_clean(5);
    assert_eq!(cred.id, Some(5));
    assert_eq!(cred.schema_id, None);
    assert_eq!(cred.public_key_id, None);
    assert_eq!(cred.finger_print, None);
    assert_eq!(cred.data, None);
}

#[test]
fn clones_are_equal() {
    let cred = Credential {
        id: Some(1),
        schema_id: Some(2),
        public_key_id: Some(3),
        finger_print: Some(s("fp")),
        data: Some(JsonValue::Object(vec![(
            s("xs"),
            JsonValue::Array(vec![JsonValue::Null, JsonValue::String(s("v"))]),
        )])),
    };
    assert_eq!(cred.clone(), cred);

    let schema = Schema {
        id: Some(1),
        schema: Some(vec![(
            s("a"),
            SchemaValueType::List(vec![SchemaValueType::Dict(vec![(
                s("b"),
                SchemaValueType::Int,
            )])]),
        )]),
    };
    assert_eq!(schema.clone(), schema);
}

#[test]
fn plain_bodies_construct() {
    let id_obj = IdObj { id: Some(8) };
    assert_eq!(id_obj.id, Some(8));
    let err = ErrorMessage { error: "Error" };
    assert_eq!(err.error, "Error");
}
