//! The schema description language: a recursive tagged variant over the JSON
//! kinds, with positionally-typed lists and field-typed maps.

use vstd::prelude::*;

verus! {

/// Describes the expected type of one JSON value.
///
/// A `List` declares one expected type per position: its length is the exact
/// arity an array must have. A `Dict` — carried on the wire under the tag
/// `Map` — declares an expected type per field name; the pairs are kept in
/// declaration order, and a name occurring twice is resolved by its first
/// occurrence.
#[derive(Debug, PartialEq)]
pub enum SchemaValueType {
    Bool,
    Int,
    Float,
    String,
    Null,
    List(Vec<SchemaValueType>),
    Dict(Vec<(String, SchemaValueType)>),
}

/// The mathematical shape of a schema description.
pub enum SchemaTypeModel {
    Bool,
    Int,
    Float,
    String,
    Null,
    List(Seq<SchemaTypeModel>),
    Dict(Seq<(Seq<char>, SchemaTypeModel)>),
}

/// The model of a schema description.
pub open spec fn schema_model(t: SchemaValueType) -> SchemaTypeModel
    decreases t,
{
    match t {
        SchemaValueType::Bool => SchemaTypeModel::Bool,
        SchemaValueType::Int => SchemaTypeModel::Int,
        SchemaValueType::Float => SchemaTypeModel::Float,
        SchemaValueType::String => SchemaTypeModel::String,
        SchemaValueType::Null => SchemaTypeModel::Null,
        SchemaValueType::List(ts) => SchemaTypeModel::List(schema_types_model(ts)),
        SchemaValueType::Dict(fs) => SchemaTypeModel::Dict(schema_base_model(fs)),
    }
}

/// The models of a list of schema descriptions, in order.
pub open spec fn schema_types_model(ts: Vec<SchemaValueType>) -> Seq<SchemaTypeModel>
    decreases ts,
{
    Seq::new(
        ts@.len(),
        |i: int|
            if 0 <= i < ts@.len() {
                schema_model(ts[i])
            } else {
                SchemaTypeModel::Null
            },
    )
}

/// The model of a field map: each declared name as a sequence of characters,
/// with the model of its declared type, in declaration order. The root of
/// every registered schema is such an unwrapped field map.
pub open spec fn schema_base_model(fields: Vec<(String, SchemaValueType)>) -> Seq<
    (Seq<char>, SchemaTypeModel),
>
    decreases fields,
{
    Seq::new(
        fields@.len(),
        |i: int|
            if 0 <= i < fields@.len() {
                (fields[i].0@, schema_model(fields[i].1))
            } else {
                (Seq::empty(), SchemaTypeModel::Null)
            },
    )
}

impl View for SchemaValueType {
    type V = SchemaTypeModel;

    open spec fn view(&self) -> SchemaTypeModel {
        schema_model(*self)
    }
}

impl Clone for SchemaValueType {
    /// A clone has the same model as the original description.
    fn clone(&self) -> (r: Self)
        ensures
            r@ == self@,
        decreases *self,
    {
        match self {
            SchemaValueType::Bool => SchemaValueType::Bool,
            SchemaValueType::Int => SchemaValueType::Int,
            SchemaValueType::Float => SchemaValueType::Float,
            SchemaValueType::String => SchemaValueType::String,
            SchemaValueType::Null => SchemaValueType::Null,
            SchemaValueType::List(ts) => {
                let out = clone_schema_types(ts);
                let r = SchemaValueType::List(out);
                proof {
                    let a = r@->List_0;
                    let b = self@->List_0;
                    assert forall|i: int| 0 <= i < a.len() implies a[i] == b[i] by {
                        assert(r@->List_0[i] == schema_model(out@[i]));
                        assert(self@->List_0[i] == schema_model(ts@[i]));
                        assert(out[i]@ == ts[i]@);
                    }
                    assert(a =~= b);
                }
                r
            },
            SchemaValueType::Dict(fs) => {
                let out = clone_schema_fields(fs);
                let r = SchemaValueType::Dict(out);
                proof {
                    let a = r@->Dict_0;
                    let b = self@->Dict_0;
                    assert forall|i: int| 0 <= i < a.len() implies a[i] == b[i] by {
                        assert(r@->Dict_0[i] == (out@[i].0@, schema_model(out@[i].1)));
                        assert(self@->Dict_0[i] == (fs@[i].0@, schema_model(fs@[i].1)));
                        assert(out[i].0@ == fs[i].0@);
                        assert(out[i].1@ == fs[i].1@);
                    }
                    assert(a =~= b);
                }
                r
            },
        }
    }
}

/// Clones a list of schema descriptions, keeping the model of every entry.
fn clone_schema_types(ts: &Vec<SchemaValueType>) -> (r: Vec<SchemaValueType>)
    ensures
        r@.len() == ts@.len(),
        forall|i: int| 0 <= i < ts@.len() ==> #[trigger] r[i]@ == ts[i]@,
    decreases *ts,
{
    let mut out: Vec<SchemaValueType> = Vec::new();
    let mut k: usize = 0;
    while k < ts.len()
        invariant
            k <= ts@.len(),
            out@.len() == k,
            forall|i: int| 0 <= i < k ==> #[trigger] out[i]@ == ts[i]@,
        decreases ts@.len() - k,
    {
        out.push(ts[k].clone());
        k += 1;
    }
    out
}

/// Clones the field list of a schema map, keeping each name and the model of
/// each declared type.
pub fn clone_schema_fields(fields: &Vec<(String, SchemaValueType)>) -> (r: Vec<
    (String, SchemaValueType),
>)
    ensures
        r@.len() == fields@.len(),
        forall|i: int| 0 <= i < fields@.len() ==> #[trigger] r[i].0@ == fields[i].0@,
        forall|i: int| 0 <= i < fields@.len() ==> #[trigger] r[i].1@ == fields[i].1@,
        schema_base_model(r) == schema_base_model(*fields),
    decreases *fields,
{
    let mut out: Vec<(String, SchemaValueType)> = Vec::new();
    let mut k: usize = 0;
    while k < fields.len()
        invariant
            k <= fields@.len(),
            out@.len() == k,
            forall|i: int| 0 <= i < k ==> #[trigger] out[i].0@ == fields[i].0@,
            forall|i: int| 0 <= i < k ==> #[trigger] out[i].1@ == fields[i].1@,
        decreases fields@.len() - k,
    {
        let name = fields[k].0.clone();
        let ty = fields[k].1.clone();
        proof {
            assert(name@ == fields[k as int].0@);
            assert(ty@ == fields[k as int].1@);
        }
        let ghost prev = out@;
        out.push((name, ty));
        k += 1;
        proof {
            assert forall|i: int| 0 <= i < k implies #[trigger] out[i].1@ == fields[i].1@ by {
                if i == k - 1 {
                    assert(out[i] == (name, ty));
                } else {
                    assert(out[i] == prev[i]);
                    assert(prev[i].1@ == fields[i].1@);
                }
            }
        }
    }
    proof {
        assert forall|i: int| 0 <= i < fields@.len() implies schema_base_model(out)[i]
            == schema_base_model(*fields)[i] by {
            assert(out[i].0@ == fields[i].0@);
            assert(out[i].1@ == fields[i].1@);
        }
        assert(schema_base_model(out) =~= schema_base_model(*fields));
    }
    out
}

} // verus!
