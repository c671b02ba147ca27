//! An in-memory JSON document tree, and its mathematical model.
//!
//! The tree is what the boundary layer hands the library after parsing a
//! request body: objects are kept as ordered lists of name/value pairs, and
//! a number is kept as the classification the conformance checker reads,
//! since the checker never does arithmetic on it.

use vstd::prelude::*;

verus! {

/// What the conformance checker observes of a JSON number.
///
/// The boundary layer that parses a document classifies each number once;
/// the checker itself only reads the two facts below.
#[derive(Clone, Copy, Debug, PartialEq, Eq)]
pub struct JsonNumber {
    /// The number was written in floating-point form (it carries a decimal
    /// point or an exponent).
    pub float_form: bool,
    /// `Some(v)` exactly when the number's value is a whole number
    /// representable as a 64-bit signed integer, and then `v` is that value.
    pub int_value: Option<i64>,
}

/// A JSON document tree.
///
/// An object keeps its fields as a list of name/value pairs in document
/// order; a name occurring twice is resolved by its first occurrence.
#[derive(Debug, PartialEq)]
pub enum JsonValue {
    Null,
    Bool(bool),
    Number(JsonNumber),
    String(String),
    Array(Vec<JsonValue>),
    Object(Vec<(String, JsonValue)>),
}

/// The mathematical shape of a JSON tree: strings become sequences of
/// characters, arrays and objects become sequences. Contracts throughout the
/// crate speak of this model rather than of the executable tree.
pub enum JsonModel {
    Null,
    Bool(bool),
    Number(JsonNumber),
    String(Seq<char>),
    Array(Seq<JsonModel>),
    Object(Seq<(Seq<char>, JsonModel)>),
}

/// The model of a JSON tree.
pub open spec fn json_model(v: JsonValue) -> JsonModel
    decreases v,
{
    match v {
        JsonValue::Null => JsonModel::Null,
        JsonValue::Bool(b) => JsonModel::Bool(b),
        JsonValue::Number(n) => JsonModel::Number(n),
        JsonValue::String(s) => JsonModel::String(s@),
        JsonValue::Array(items) => JsonModel::Array(json_items_model(items)),
        JsonValue::Object(fields) => JsonModel::Object(json_fields_model(fields)),
    }
}

/// The models of the entries of an array, in order.
pub open spec fn json_items_model(items: Vec<JsonValue>) -> Seq<JsonModel>
    decreases items,
{
    Seq::new(
        items@.len(),
        |i: int|
            if 0 <= i < items@.len() {
                json_model(items[i])
            } else {
                JsonModel::Null
            },
    )
}

/// The models of the fields of an object, in order: each name as a sequence
/// of characters, with the model of its value.
pub open spec fn json_fields_model(fields: Vec<(String, JsonValue)>) -> Seq<(Seq<char>, JsonModel)>
    decreases fields,
{
    Seq::new(
        fields@.len(),
        |i: int|
            if 0 <= i < fields@.len() {
                (fields[i].0@, json_model(fields[i].1))
            } else {
                (Seq::empty(), JsonModel::Null)
            },
    )
}

impl View for JsonValue {
    type V = JsonModel;

    open spec fn view(&self) -> JsonModel {
        json_model(*self)
    }
}

impl Clone for JsonValue {
    /// A clone has the same model as the original tree.
    fn clone(&self) -> (r: Self)
        ensures
            r@ == self@,
        decreases *self,
    {
        match self {
            JsonValue::Null => JsonValue::Null,
            JsonValue::Bool(b) => JsonValue::Bool(*b),
            JsonValue::Number(n) => JsonValue::Number(*n),
            JsonValue::String(s) => JsonValue::String(s.clone()),
            JsonValue::Array(items) => {
                let out = clone_json_values(items);
                let r = JsonValue::Array(out);
                proof {
                    let a = r@->Array_0;
                    let b = self@->Array_0;
                    assert forall|i: int| 0 <= i < a.len() implies a[i] == b[i] by {
                        assert(r@->Array_0[i] == json_model(out@[i]));
                        assert(self@->Array_0[i] == json_model(items@[i]));
                        assert(out[i]@ == items[i]@);
                    }
                    assert(a =~= b);
                }
                r
            },
            JsonValue::Object(fields) => {
                let out = clone_json_fields(fields);
                let r = JsonValue::Object(out);
                proof {
                    let a = r@->Object_0;
                    let b = self@->Object_0;
                    assert forall|i: int| 0 <= i < a.len() implies a[i] == b[i] by {
                        assert(r@->Object_0[i] == (out@[i].0@, json_model(out@[i].1)));
                        assert(self@->Object_0[i] == (fields@[i].0@, json_model(fields@[i].1)));
                        assert(out[i].0@ == fields[i].0@);
                        assert(out[i].1@ == fields[i].1@);
                    }
                    assert(a =~= b);
                }
                r
            },
        }
    }
}

/// Clones a list of JSON trees, keeping the model of every entry.
fn clone_json_values(items: &Vec<JsonValue>) -> (r: Vec<JsonValue>)
    ensures
        r@.len() == items@.len(),
        forall|i: int| 0 <= i < items@.len() ==> #[trigger] r[i]@ == items[i]@,
    decreases *items,
{
    let mut out: Vec<JsonValue> = Vec::new();
    let mut k: usize = 0;
    while k < items.len()
        invariant
            k <= items@.len(),
            out@.len() == k,
            forall|i: int| 0 <= i < k ==> #[trigger] out[i]@ == items[i]@,
        decreases items@.len() - k,
    {
        out.push(items[k].clone());
        k += 1;
    }
    out
}

/// Clones the field list of a JSON object, keeping each name and the model
/// of each value.
fn clone_json_fields(fields: &Vec<(String, JsonValue)>) -> (r: Vec<(String, JsonValue)>)
    ensures
        r@.len() == fields@.len(),
        forall|i: int| 0 <= i < fields@.len() ==> #[trigger] r[i].0@ == fields[i].0@,
        forall|i: int| 0 <= i < fields@.len() ==> #[trigger] r[i].1@ == fields[i].1@,
    decreases *fields,
{
    let mut out: Vec<(String, JsonValue)> = Vec::new();
    let mut k: usize = 0;
    while k < fields.len()
        invariant
            k <= fields@.len(),
            out@.len() == k,
            forall|i: int| 0 <= i < k ==> #[trigger] out[i].0@ == fields[i].0@,
            forall|i: int| 0 <= i < k ==> #[trigger] out[i].1@ == fields[i].1@,
        decreases fields@.len() - k,
    {
        let name = fields[k].0.clone();
        let value = fields[k].1.clone();
        out.push((name, value));
        k += 1;
    }
    out
}

} // verus!
