//! The stored resource records — credentials, schemas and cryptographic
//! keys — with their models and uniform construction helpers.
//!
//! Every record is created with `id` absent; the store assigns the numeric
//! identifier and the service answers with a copy that carries it.

use vstd::prelude::*;
use crate::json::{JsonModel, JsonValue, json_model};
use crate::schema::{SchemaTypeModel, SchemaValueType, schema_base_model, clone_schema_fields};

verus! {

/// A bare identifier, as a delete operation reports it back.
pub struct IdObj {
    pub id: Option<u32>,
}

/// A stored credential: a payload plus references to the schema it must
/// conform to and to the key it was signed with.
#[derive(Debug, PartialEq)]
pub struct Credential {
    pub id: Option<u32>,
    pub schema_id: Option<u32>,
    pub public_key_id: Option<u32>,
    pub finger_print: Option<String>,
    pub data: Option<JsonValue>,
}

/// The mathematical shape of a credential record.
pub struct CredentialModel {
    pub id: Option<u32>,
    pub schema_id: Option<u32>,
    pub public_key_id: Option<u32>,
    pub finger_print: Option<Seq<char>>,
    pub data: Option<JsonModel>,
}

impl View for Credential {
    type V = CredentialModel;

    open spec fn view(&self) -> CredentialModel {
        CredentialModel {
            id: self.id,
            schema_id: self.schema_id,
            public_key_id: self.public_key_id,
            finger_print: match self.finger_print {
                Some(s) => Some(s@),
                None => None,
            },
            data: match self.data {
                Some(v) => Some(json_model(v)),
                None => None,
            },
        }
    }
}

/// A registered schema: a field map that credential payloads are validated
/// against.
#[derive(Debug, PartialEq)]
pub struct Schema {
    pub schema: Option<Vec<(String, SchemaValueType)>>,
    pub id: Option<u32>,
}

/// The mathematical shape of a schema record.
pub struct SchemaModel {
    pub schema: Option<Seq<(Seq<char>, SchemaTypeModel)>>,
    pub id: Option<u32>,
}

impl View for Schema {
    type V = SchemaModel;

    open spec fn view(&self) -> SchemaModel {
        SchemaModel {
            schema: match self.schema {
                Some(fields) => Some(schema_base_model(fields)),
                None => None,
            },
            id: self.id,
        }
    }
}

/// A stored public key.
#[derive(Debug, PartialEq)]
pub struct CryptographicKeys {
    pub public_key: Option<String>,
    pub id: Option<u32>,
}

/// The mathematical shape of a key record.
pub struct CryptographicKeysModel {
    pub public_key: Option<Seq<char>>,
    pub id: Option<u32>,
}

impl View for CryptographicKeys {
    type V = CryptographicKeysModel;

    open spec fn view(&self) -> CryptographicKeysModel {
        CryptographicKeysModel {
            public_key: match self.public_key {
                Some(s) => Some(s@),
                None => None,
            },
            id: self.id,
        }
    }
}

/// An error body handed back to the boundary layer.
pub struct ErrorMessage {
    pub error: &'static str,
}

impl Clone for Credential {
    /// A clone has the same model as the original record.
    fn clone(&self) -> (r: Self)
        ensures
            r@ == self@,
    {
        Credential {
            id: self.id,
            schema_id: self.schema_id,
            public_key_id: self.public_key_id,
            finger_print: match &self.finger_print {
                Some(s) => Some(s.clone()),
                None => None,
            },
            data: match &self.data {
                Some(v) => Some(v.clone()),
                None => None,
            },
        }
    }
}

impl Clone for Schema {
    /// A clone has the same model as the original record.
    fn clone(&self) -> (r: Self)
        ensures
            r@ == self@,
    {
        Schema {
            schema: match &self.schema {
                Some(fields) => Some(clone_schema_fields(fields)),
                None => None,
            },
            id: self.id,
        }
    }
}

impl Clone for CryptographicKeys {
    /// A clone has the same model as the original record.
    fn clone(&self) -> (r: Self)
        ensures
            r@ == self@,
    {
        CryptographicKeys {
            public_key: match &self.public_key {
                Some(s) => Some(s.clone()),
                None => None,
            },
            id: self.id,
        }
    }
}

/// Building a copy of a record that carries a store-assigned identifier.
pub trait WithID: View + Sized {
    /// The model of that copy: the given identifier, everything else kept.
    spec fn with_new_id_model(&self, id: u32) -> Self::V;

    /// Returns a copy of `self` whose identifier is `id`.
    fn new_with_new_id(&self, id: u32) -> (r: Self)
        ensures
            r@ == self.with_new_id_model(id),
    ;
}

impl WithID for Schema {
    open spec fn with_new_id_model(&self, id: u32) -> SchemaModel {
        SchemaModel { id: Some(id), schema: self@.schema }
    }

    fn new_with_new_id(&self, id: u32) -> (r: Self) {
        Schema {
            id: Some(id),
            schema: match &self.schema {
                Some(fields) => Some(clone_schema_fields(fields)),
                None => None,
            },
        }
    }
}

impl WithID for CryptographicKeys {
    open spec fn with_new_id_model(&self, id: u32) -> CryptographicKeysModel {
        CryptographicKeysModel { id: Some(id), public_key: self@.public_key }
    }

    fn new_with_new_id(&self, id: u32) -> (r: Self) {
        CryptographicKeys {
            id: Some(id),
            public_key: match &self.public_key {
                Some(s) => Some(s.clone()),
                None => None,
            },
        }
    }
}

impl WithID for Credential {
    open spec fn with_new_id_model(&self, id: u32) -> CredentialModel {
        CredentialModel { id: Some(id), ..self@ }
    }

    fn new_with_new_id(&self, id: u32) -> (r: Self) {
        Credential {
            id: Some(id),
            schema_id: self.schema_id,
            public_key_id: self.public_key_id,
            finger_print: match &self.finger_print {
                Some(s) => Some(s.clone()),
                None => None,
            },
            data: match &self.data {
                Some(v) => Some(v.clone()),
                None => None,
            },
        }
    }
}

/// Building an otherwise-empty record around a store-assigned identifier.
pub trait Clean: View + Sized {
    /// The model of that record: the given identifier, every other field
    /// absent.
    spec fn clean_model(id: u32) -> Self::V;

    /// Returns a record that holds `id` and nothing else.
    fn new_clean(id: u32) -> (r: Self)
        ensures
            r@ == Self::clean_model(id),
    ;
}

impl Clean for Schema {
    open spec fn clean_model(id: u32) -> SchemaModel {
        SchemaModel { id: Some(id), schema: None }
    }

    fn new_clean(id: u32) -> (r: Self) {
        Schema { id: Some(id), schema: None }
    }
}

impl Clean for CryptographicKeys {
    open spec fn clean_model(id: u32) -> CryptographicKeysModel {
        CryptographicKeysModel { id: Some(id), public_key: None }
    }

    fn new_clean(id: u32) -> (r: Self) {
        CryptographicKeys { id: Some(id), public_key: None }
    }
}

impl Clean for Credential {
    open spec fn clean_model(id: u32) -> CredentialModel {
        CredentialModel {
            id: Some(id),
            schema_id: None,
            public_key_id: None,
            finger_print: None,
            data: None,
        }
    }

    fn new_clean(id: u32) -> (r: Self) {
        Credential {
            id: Some(id),
            schema_id: None,
            public_key_id: None,
            finger_print: None,
            data: None,
        }
    }
}

/// A record the service stores and serves.
pub trait ProjectData: WithID + Clean {

}

impl ProjectData for Credential {

}

impl ProjectData for CryptographicKeys {

}

impl ProjectData for Schema {

}

} // verus!
