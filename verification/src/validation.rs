//! The validation rules that guard persistence.
//!
//! Each rule is a pure decision: the surrounding service fetches whatever
//! the rule needs (the referenced schema, the referenced key), hands the
//! results in, and only on `Ok` delegates to the store. A rejected request
//! is therefore never persisted.

use vstd::prelude::*;
use crate::conformance::{conforms, payload_conforms};
use crate::records::{Credential, CredentialModel, CryptographicKeys, CryptographicKeysModel,
    Schema, SchemaModel};

verus! {

/// Why a request was rejected before any store mutation was attempted.
#[derive(Clone, Copy, PartialEq, Eq, Structural, Debug)]
pub enum ValidationError {
    /// A credential carries no schema reference.
    MissingSchemaId,
    /// The referenced schema could not be fetched.
    SchemaNotFound,
    /// The referenced schema has no field map, or the payload does not
    /// conform to it.
    NonconformingData,
    /// A credential update carries no key reference.
    MissingPublicKeyId,
    /// The referenced key could not be fetched.
    KeyNotFound,
    /// A schema was submitted without its field map.
    MissingSchemaBody,
    /// A key was submitted without its key material.
    MissingPublicKey,
    /// An update was submitted without the field map or identifier it
    /// needs.
    InvalidRequestBody,
}

impl ValidationError {
    /// The error text of each rejection.
    pub open spec fn message_model(self) -> Seq<char> {
        match self {
            ValidationError::MissingSchemaId => "Invalid schema_id field"@,
            ValidationError::SchemaNotFound => "No schema found"@,
            ValidationError::NonconformingData => "Invalid or Nonconforming schema"@,
            ValidationError::MissingPublicKeyId => "Invalid public_id field"@,
            ValidationError::KeyNotFound => "No key found"@,
            ValidationError::MissingSchemaBody => "Invalid schema field"@,
            ValidationError::MissingPublicKey => "Invalid public_key field"@,
            ValidationError::InvalidRequestBody => "Invalid request body"@,
        }
    }

    /// The error text the service answers with.
    pub fn message(&self) -> (r: &'static str)
        ensures
            r@ == self.message_model(),
    {
        match self {
            ValidationError::MissingSchemaId => "Invalid schema_id field",
            ValidationError::SchemaNotFound => "No schema found",
            ValidationError::NonconformingData => "Invalid or Nonconforming schema",
            ValidationError::MissingPublicKeyId => "Invalid public_id field",
            ValidationError::KeyNotFound => "No key found",
            ValidationError::MissingSchemaBody => "Invalid schema field",
            ValidationError::MissingPublicKey => "Invalid public_key field",
            ValidationError::InvalidRequestBody => "Invalid request body",
        }
    }
}

/// The model of a schema fetch: the record found, or nothing on a missing
/// row or a store failure.
pub open spec fn schema_fetch_model(fetch: Option<Schema>) -> Option<SchemaModel> {
    match fetch {
        Some(s) => Some(s@),
        None => None,
    }
}

/// The model of a key fetch.
pub open spec fn key_fetch_model(fetch: Option<CryptographicKeys>) -> Option<
    CryptographicKeysModel,
> {
    match fetch {
        Some(k) => Some(k@),
        None => None,
    }
}

/// The outcome owed for a credential-creation request: the credential must
/// reference a schema, the referenced schema must have been fetched with
/// its field map, and the payload must conform to that map.
pub open spec fn check_credential_create_model(
    c: CredentialModel,
    fetched: Option<SchemaModel>,
) -> Result<(), ValidationError> {
    if c.schema_id is None {
        Err(ValidationError::MissingSchemaId)
    } else {
        match fetched {
            None => Err(ValidationError::SchemaNotFound),
            Some(s) => match s.schema {
                None => Err(ValidationError::NonconformingData),
                Some(declared) => if payload_conforms(c.data, declared) {
                    Ok(())
                } else {
                    Err(ValidationError::NonconformingData)
                },
            },
        }
    }
}

/// The outcome owed for a credential-update request: the creation checks,
/// and then the credential must reference a key that was fetched. Whether
/// the key's material verifies the fingerprint is delegated to `verify`, a
/// placeholder that accepts every pair, so a fetched key never blocks.
pub open spec fn check_credential_update_model(
    c: CredentialModel,
    schema_fetched: Option<SchemaModel>,
    key_fetched: Option<CryptographicKeysModel>,
) -> Result<(), ValidationError> {
    match check_credential_create_model(c, schema_fetched) {
        Err(e) => Err(e),
        Ok(()) => if c.public_key_id is None {
            Err(ValidationError::MissingPublicKeyId)
        } else {
            match key_fetched {
                None => Err(ValidationError::KeyNotFound),
                Some(_) => Ok(()),
            }
        },
    }
}

/// Decides a credential-creation request from the credential and the
/// fetched schema. `Ok` is returned exactly when a schema is referenced,
/// was fetched with its field map, and the payload conforms to it; the
/// service persists the credential only then.
pub fn check_credential_create(cred: &Credential, schema_fetch: &Option<Schema>) -> (r: Result<
    (),
    ValidationError,
>)
    ensures
        r == check_credential_create_model(cred@, schema_fetch_model(*schema_fetch)),
{
    if cred.schema_id.is_none() {
        return Err(ValidationError::MissingSchemaId);
    }
    match schema_fetch {
        None => Err(ValidationError::SchemaNotFound),
        Some(schema) => match &schema.schema {
            None => Err(ValidationError::NonconformingData),
            Some(declared) => if conforms(cred, declared) {
                Ok(())
            } else {
                Err(ValidationError::NonconformingData)
            },
        },
    }
}

/// Decides a credential-update request from the credential, the fetched
/// schema and the fetched key.
pub fn check_credential_update(
    cred: &Credential,
    schema_fetch: &Option<Schema>,
    key_fetch: &Option<CryptographicKeys>,
) -> (r: Result<(), ValidationError>)
    ensures
        r == check_credential_update_model(
            cred@,
            schema_fetch_model(*schema_fetch),
            key_fetch_model(*key_fetch),
        ),
{
    let first = check_credential_create(cred, schema_fetch);
    if let Err(e) = first {
        return Err(e);
    }
    if cred.public_key_id.is_none() {
        return Err(ValidationError::MissingPublicKeyId);
    }
    match key_fetch {
        None => Err(ValidationError::KeyNotFound),
        Some(_) => Ok(()),
    }
}

/// Guards schema creation: the submitted schema must carry its field map.
pub fn check_schema_create(schema: &Schema) -> (r: Result<(), ValidationError>)
    ensures
        r is Err <==> schema@.schema is None,
        r is Err ==> r->Err_0 == ValidationError::MissingSchemaBody,
{
    if schema.schema.is_none() {
        Err(ValidationError::MissingSchemaBody)
    } else {
        Ok(())
    }
}

/// Guards schema updates: the submitted schema must carry its field map
/// and the identifier of the row to change.
pub fn check_schema_update(schema: &Schema) -> (r: Result<(), ValidationError>)
    ensures
        r is Err <==> (schema@.schema is None || schema@.id is None),
        r is Err ==> r->Err_0 == ValidationError::InvalidRequestBody,
{
    if schema.schema.is_some() && schema.id.is_some() {
        Ok(())
    } else {
        Err(ValidationError::InvalidRequestBody)
    }
}

/// Guards key creation: the submitted key must carry its key material.
pub fn check_key_create(key: &CryptographicKeys) -> (r: Result<(), ValidationError>)
    ensures
        r is Err <==> key@.public_key is None,
        r is Err ==> r->Err_0 == ValidationError::MissingPublicKey,
{
    if key.public_key.is_none() {
        Err(ValidationError::MissingPublicKey)
    } else {
        Ok(())
    }
}

/// Guards key updates: the submitted key must carry its key material and
/// the identifier of the row to change.
pub fn check_key_update(key: &CryptographicKeys) -> (r: Result<(), ValidationError>)
    ensures
        r is Err <==> (key@.public_key is None || key@.id is None),
        r is Err ==> r->Err_0 == ValidationError::InvalidRequestBody,
{
    if key.public_key.is_some() && key.id.is_some() {
        Ok(())
    } else {
        Err(ValidationError::InvalidRequestBody)
    }
}

/// Placeholder for cryptographic verification of a credential against a
/// key — comparing the fingerprint with a function of the payload and the
/// key material is out of scope, so every pair is accepted.
pub fn verify(_cred: &Credential, _key: &CryptographicKeys) -> (r: bool)
    ensures
        r,
{
    true
}

} // verus!
