use cred_schema::json::JsonValue;
use cred_schema::records::{Credential, CryptographicKeys, Schema};
use cred_schema::schema::SchemaValueType;
use cred_schema::validation::{check_credential_create, check_credential_update, check_key_create,
    check_key_update, check_schema_create, check_schema_update, verify, ValidationError};

fn s(x: &str) -> String {
    x.to_string()
}

fn bool_schema() -> Schema {
    Schema {
        id: Some(7),
        schema: Some(vec![(s("a"), SchemaValueType::Bool)]),
    }
}

fn conforming_credential() -> Credential {
    Credential {
        id: None,
        schema_id: Some(7),
        public_key_id: Some(3),
        finger_print: None,
        data: Some(JsonValue::Object(vec![(s("a"), JsonValue::Bool(true))])),
    }
}

fn some_key() -> CryptographicKeys {
    CryptographicKeys {
        id: Some(3),
        public_key: Some(s("SECRET-REDACTED")),
    }
}

#[test]
fn create_without_schema_id_is_rejected() {
    let mut cred = conforming_credential();
    cred.schema_id = None;
    let r = check_credential_create(&cred, &Some(bool_schema()));
    assert_eq!(r, Err(ValidationError::MissingSchemaId));
    assert_eq!(r.unwrap_err().message(), "Invalid schema_id field");
}

#[test]
fn create_with_unknown_schema_is_rejected() {
    // The referenced schema was not found: the decision is an error, so the
    // service never reaches the store with this credential.
    let cred = conforming_credential();
    let r = check_credential_create(&cred, &None);
    assert_eq!(r, Err(ValidationError::SchemaNotFound));
    assert_eq!(r.unwrap_err().message(), "No schema found");
}

#[test]
fn create_with_bodyless_schema_is_rejected() {
    let cred = conforming_credential();
    let fetched = Schema { id: Some(7), schema: None };
    let r = check_credential_create(&cred, &Some(fetched));
    assert_eq!(r, Err(ValidationError::NonconformingData));
    assert_eq!(r.unwrap_err().message(), "Invalid or Nonconforming schema");
}

#[test]
fn create_with_nonconforming_data_is_rejected() {
    let mut cred = conforming_credential();
    cred.data = Some(JsonValue::Object(vec![(s("a"), JsonValue::Null)]));
    let r = check_credential_create(&cred, &Some(bool_schema()));
    assert_eq!(r, Err(ValidationError::NonconformingData));
}

#[test]
fn create_with_conforming_data_passes() {
    let cred = conforming_credential();
    assert_eq!(check_credential_create(&cred, &Some(bool_schema())), Ok(()));
}

#[test]
fn update_needs_key_reference() {
    let mut cred = conforming_credential();
    cred.public_key_id = None;
    let r = check_credential_update(&cred, &Some(bool_schema()), &Some(some_key()));
    assert_eq!(r, Err(ValidationError::MissingPublicKeyId));
    assert_eq!(r.unwrap_err().message(), "Invalid public_id field");
}

#[test]
fn update_needs_existing_key() {
    let cred = conforming_credential();
    let r = check_credential_update(&cred, &Some(bool_schema()), &None);
    assert_eq!(r, Err(ValidationError::KeyNotFound));
    assert_eq!(r.unwrap_err().message(), "No key found");
}

#[test]
fn update_repeats_schema_checks() {
    let cred = conforming_credential();
    let r = check_credential_update(&cred, &None, &Some(some_key()));
    assert_eq!(r, Err(ValidationError::SchemaNotFound));
}

#[test]
fn update_with_everything_in_place_passes() {
    let cred = conforming_credential();
    let r = check_credential_update(&cred, &Some(bool_schema()), &Some(some_key()));
    assert_eq!(r, Ok(()));
}

#[test]
fn verification_stub_accepts_every_pair() {
    assert!(verify(&conforming_credential(), &some_key()));
}

#[test]
fn schema_requests_are_guarded() {
    let bodyless = Schema { id: None, schema: None };
    let r = check_schema_create(&bodyless);
    assert_eq!(r, Err(ValidationError::MissingSchemaBody));
    assert_eq!(r.unwrap_err().message(), "Invalid schema field");
    assert_eq!(check_schema_create(&bool_schema()), Ok(()));

    let without_id = Schema { id: None, schema: bool_schema().schema };
    let r = check_schema_update(&without_id);
    assert_eq!(r, Err(ValidationError::InvalidRequestBody));
    assert_eq!(r.unwrap_err().message(), "Invalid request body");
    assert_eq!(check_schema_update(&bool_schema()), Ok(()));
}

#[test]
fn key_requests_are_guarded() {
    let empty = CryptographicKeys { id: None, public_key: None };
    let r = check_key_create(&empty);
    assert_eq!(r, Err(ValidationError::MissingPublicKey));
    assert_eq!(r.unwrap_err().message(), "Invalid public_key field");
    assert_eq!(check_key_create(&some_key()), Ok(()));

    let without_id = CryptographicKeys { id: None, public_key: Some(s("k")) };
    assert_eq!(check_key_update(&without_id), Err(ValidationError::InvalidRequestBody));
    assert_eq!(check_key_update(&some_key()), Ok(()));
}
