//! Core of a credential registry: a JSON value model, a recursive schema
//! description language, a structural conformance checker that validates a
//! JSON tree against a schema, the wire codec for schema descriptions, and
//! the validation rules that guard credential persistence.
//!
//! Storage and HTTP transport are external collaborators: the functions here
//! are pure, and the surrounding service hands them already-materialized
//! values and fetch results.

pub mod codec;
pub mod conformance;
pub mod json;
pub mod records;
pub mod schema;
pub mod validation;
