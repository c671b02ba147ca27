//! The conformance checker: validates a JSON tree against a schema.
//!
//! Validation is structural and total — every branch yields a boolean, never
//! an error. An object conforms when every field it actually carries is
//! declared in the schema with a matching type; declared fields absent from
//! the object are not checked. An array conforms to a `List` only with the
//! exact declared arity, each entry checked against the type at its
//! position.

use vstd::prelude::*;
use crate::json::{JsonModel, JsonNumber, JsonValue, json_fields_model, json_items_model,
    json_model};
use crate::records::Credential;
use crate::schema::{SchemaTypeModel, SchemaValueType, schema_base_model, schema_model,
    schema_types_model};

verus! {

/// Whether a JSON number conforms to an expected type: `Int` asks for a
/// whole value representable as a 64-bit signed integer, `Float` for a
/// number written in floating-point form.
pub open spec fn number_conforms(n: JsonNumber, t: SchemaTypeModel) -> bool {
    match t {
        SchemaTypeModel::Int => n.int_value is Some,
        SchemaTypeModel::Float => n.float_form,
        _ => false,
    }
}

/// The type a schema field map declares for `name`: the first pair carrying
/// that name, if any.
pub open spec fn lookup_type(
    declared: Seq<(Seq<char>, SchemaTypeModel)>,
    name: Seq<char>,
) -> Option<SchemaTypeModel>
    decreases declared.len(),
{
    if declared.len() == 0 {
        None
    } else if declared[0].0 == name {
        Some(declared[0].1)
    } else {
        lookup_type(declared.drop_first(), name)
    }
}

/// Whether a JSON tree conforms to one expected type.
pub open spec fn value_conforms(v: JsonModel, t: SchemaTypeModel) -> bool
    decreases v, 0int,
{
    match v {
        JsonModel::Null => t is Null,
        JsonModel::Bool(_) => t is Bool,
        JsonModel::Number(n) => number_conforms(n, t),
        JsonModel::String(_) => t is String,
        JsonModel::Array(items) => match t {
            SchemaTypeModel::List(ts) => items.len() == ts.len() && list_conforms_from(
                items,
                ts,
                0,
            ),
            _ => false,
        },
        JsonModel::Object(fields) => match t {
            SchemaTypeModel::Dict(declared) => object_conforms_from(fields, declared, 0),
            _ => false,
        },
    }
}

/// Whether every array entry from position `k` on conforms to the type at
/// its position. The two sequences have equal length wherever this is
/// applied.
pub open spec fn list_conforms_from(
    items: Seq<JsonModel>,
    ts: Seq<SchemaTypeModel>,
    k: int,
) -> bool
    decreases items, items.len() - k,
{
    if k < 0 || k >= items.len() {
        true
    } else {
        value_conforms(items[k], ts[k]) && list_conforms_from(items, ts, k + 1)
    }
}

/// Whether every object field from position `k` on is declared in the
/// schema field map with a matching type.
pub open spec fn object_conforms_from(
    fields: Seq<(Seq<char>, JsonModel)>,
    declared: Seq<(Seq<char>, SchemaTypeModel)>,
    k: int,
) -> bool
    decreases fields, fields.len() - k,
{
    if k < 0 || k >= fields.len() {
        true
    } else {
        (match lookup_type(declared, fields[k].0) {
            Some(t) => value_conforms(fields[k].1, t),
            None => false,
        }) && object_conforms_from(fields, declared, k + 1)
    }
}

/// Whether an object conforms to a schema field map: a conjunction over the
/// fields the object actually carries.
pub open spec fn object_conforms(
    fields: Seq<(Seq<char>, JsonModel)>,
    declared: Seq<(Seq<char>, SchemaTypeModel)>,
) -> bool {
    object_conforms_from(fields, declared, 0)
}

/// Whether one present field checks out: its name must be declared, and its
/// value must conform to the declared type.
pub open spec fn field_conforms(
    field: (Seq<char>, JsonModel),
    declared: Seq<(Seq<char>, SchemaTypeModel)>,
) -> bool {
    match lookup_type(declared, field.0) {
        Some(t) => value_conforms(field.1, t),
        None => false,
    }
}

/// Whether a credential payload conforms to a schema field map: it must be
/// present and be a JSON object, and every field it carries must check out.
pub open spec fn payload_conforms(
    data: Option<JsonModel>,
    declared: Seq<(Seq<char>, SchemaTypeModel)>,
) -> bool {
    match data {
        Some(JsonModel::Object(fields)) => object_conforms(fields, declared),
        _ => false,
    }
}

/// An object conforms exactly when each field it carries checks out,
/// independently of the others.
pub proof fn lemma_object_conforms_iff(
    fields: Seq<(Seq<char>, JsonModel)>,
    declared: Seq<(Seq<char>, SchemaTypeModel)>,
)
    ensures
        object_conforms(fields, declared) <==> (forall|i: int|
            0 <= i < fields.len() ==> #[trigger] field_conforms(fields[i], declared)),
{
    lemma_object_conforms_from_iff(fields, declared, 0);
}

proof fn lemma_object_conforms_from_iff(
    fields: Seq<(Seq<char>, JsonModel)>,
    declared: Seq<(Seq<char>, SchemaTypeModel)>,
    k: int,
)
    requires
        0 <= k <= fields.len(),
    ensures
        object_conforms_from(fields, declared, k) <==> (forall|i: int|
            k <= i < fields.len() ==> #[trigger] field_conforms(fields[i], declared)),
    decreases fields.len() - k,
{
    if k < fields.len() {
        lemma_object_conforms_from_iff(fields, declared, k + 1);
        assert(object_conforms_from(fields, declared, k) == (field_conforms(fields[k], declared)
            && object_conforms_from(fields, declared, k + 1)));
    }
}

/// A field carrying a name the schema does not declare fails the whole
/// object, whatever the other fields hold.
pub proof fn lemma_undeclared_field_rejected(
    fields: Seq<(Seq<char>, JsonModel)>,
    declared: Seq<(Seq<char>, SchemaTypeModel)>,
    j: int,
)
    requires
        0 <= j < fields.len(),
        lookup_type(declared, fields[j].0) is None,
    ensures
        !object_conforms(fields, declared),
{
    lemma_undeclared_field_rejected_from(fields, declared, j, 0);
}

proof fn lemma_undeclared_field_rejected_from(
    fields: Seq<(Seq<char>, JsonModel)>,
    declared: Seq<(Seq<char>, SchemaTypeModel)>,
    j: int,
    k: int,
)
    requires
        0 <= k <= j < fields.len(),
        lookup_type(declared, fields[j].0) is None,
    ensures
        !object_conforms_from(fields, declared, k),
    decreases j - k,
{
    if k < j {
        lemma_undeclared_field_rejected_from(fields, declared, j, k + 1);
    }
}

/// An array conforms to a positionally-typed list exactly when the lengths
/// agree and every entry conforms at its position. In particular, changing
/// the array's length alone flips the result to false.
pub proof fn lemma_list_conforms_iff(items: Seq<JsonModel>, ts: Seq<SchemaTypeModel>)
    ensures
        value_conforms(JsonModel::Array(items), SchemaTypeModel::List(ts)) <==> (items.len()
            == ts.len() && (forall|i: int|
            0 <= i < items.len() ==> #[trigger] value_conforms(items[i], ts[i]))),
{
    if items.len() == ts.len() {
        lemma_list_conforms_from_iff(items, ts, 0);
    }
}

proof fn lemma_list_conforms_from_iff(items: Seq<JsonModel>, ts: Seq<SchemaTypeModel>, k: int)
    requires
        0 <= k <= items.len(),
        items.len() == ts.len(),
    ensures
        list_conforms_from(items, ts, k) <==> (forall|i: int|
            k <= i < items.len() ==> #[trigger] value_conforms(items[i], ts[i])),
    decreases items.len() - k,
{
    if k < items.len() {
        lemma_list_conforms_from_iff(items, ts, k + 1);
        assert(list_conforms_from(items, ts, k) == (value_conforms(items[k], ts[k])
            && list_conforms_from(items, ts, k + 1)));
    }
}

/// Checks whether a credential's payload conforms to a schema field map.
///
/// The result is a function of the two models alone, so equal inputs always
/// yield the same boolean; a payload that is absent or not a JSON object
/// never conforms.
pub fn conforms(cred: &Credential, sbt: &Vec<(String, SchemaValueType)>) -> (r: bool)
    ensures
        r == payload_conforms(cred@.data, schema_base_model(*sbt)),
{
    match &cred.data {
        Some(v) => match v {
            JsonValue::Object(fields) => map_verify(fields, sbt),
            _ => false,
        },
        None => false,
    }
}

/// Checks one JSON tree against the type the schema declares for it, if
/// any.
pub fn verify_single(v: &JsonValue, expected: Option<&SchemaValueType>) -> (r: bool)
    ensures
        r == match expected {
            Some(t) => value_conforms(v@, t@),
            None => false,
        },
    decreases *v,
{
    let t = match expected {
        Some(t) => t,
        None => {
            return false;
        },
    };
    match v {
        JsonValue::Null => matches!(t, SchemaValueType::Null),
        JsonValue::Bool(_) => matches!(t, SchemaValueType::Bool),
        JsonValue::Number(n) => match t {
            SchemaValueType::Int => n.int_value.is_some(),
            SchemaValueType::Float => n.float_form,
            _ => false,
        },
        JsonValue::String(_) => matches!(t, SchemaValueType::String),
        JsonValue::Array(items) => match t {
            SchemaValueType::List(ts) => vec_verify(items, ts),
            _ => false,
        },
        JsonValue::Object(fields) => match t {
            SchemaValueType::Dict(declared) => map_verify(fields, declared),
            _ => false,
        },
    }
}

/// Checks an array against a positionally-typed list: exact arity, each
/// entry against the type at its position.
pub fn vec_verify(items: &Vec<JsonValue>, ts: &Vec<SchemaValueType>) -> (r: bool)
    ensures
        r == value_conforms(
            JsonModel::Array(json_items_model(*items)),
            SchemaTypeModel::List(schema_types_model(*ts)),
        ),
    decreases *items,
{
    let ghost im = json_items_model(*items);
    let ghost tm = schema_types_model(*ts);
    if items.len() != ts.len() {
        return false;
    }
    let mut k: usize = 0;
    while k < items.len()
        invariant
            k <= items@.len(),
            items@.len() == ts@.len(),
            im == json_items_model(*items),
            tm == schema_types_model(*ts),
            list_conforms_from(im, tm, 0) == list_conforms_from(im, tm, k as int),
        decreases items@.len() - k,
    {
        let ok = verify_single(&items[k], Some(&ts[k]));
        proof {
            assert(im[k as int] == json_model(items@[k as int]));
            assert(tm[k as int] == schema_model(ts@[k as int]));
            let ghost ki = k as int;
            assert(list_conforms_from(im, tm, ki) == (value_conforms(im[ki], tm[ki])
                && list_conforms_from(im, tm, ki + 1)));
        }
        if !ok {
            return false;
        }
        k += 1;
    }
    true
}

/// Checks the fields an object carries against a schema field map.
pub fn map_verify(
    fields: &Vec<(String, JsonValue)>,
    declared: &Vec<(String, SchemaValueType)>,
) -> (r: bool)
    ensures
        r == object_conforms(json_fields_model(*fields), schema_base_model(*declared)),
    decreases *fields,
{
    let ghost fm = json_fields_model(*fields);
    let ghost dm = schema_base_model(*declared);
    let mut k: usize = 0;
    while k < fields.len()
        invariant
            k <= fields@.len(),
            fm == json_fields_model(*fields),
            dm == schema_base_model(*declared),
            object_conforms_from(fm, dm, 0) == object_conforms_from(fm, dm, k as int),
        decreases fields@.len() - k,
    {
        let declared_type = lookup_field(declared, &fields[k].0);
        let ok = verify_single(&fields[k].1, declared_type);
        proof {
            let ghost ki = k as int;
            assert(fm[ki] == (fields@[ki].0@, json_model(fields@[ki].1)));
            assert(object_conforms_from(fm, dm, ki) == ((match lookup_type(dm, fm[ki].0) {
                Some(t) => value_conforms(fm[ki].1, t),
                None => false,
            }) && object_conforms_from(fm, dm, ki + 1)));
        }
        if !ok {
            return false;
        }
        k += 1;
    }
    true
}

/// Finds the type a schema field map declares for `name`: the first pair
/// carrying that name.
pub fn lookup_field<'a>(
    declared: &'a Vec<(String, SchemaValueType)>,
    name: &String,
) -> (r: Option<&'a SchemaValueType>)
    ensures
        match r {
            Some(t) => lookup_type(schema_base_model(*declared), name@) == Some(t@),
            None => lookup_type(schema_base_model(*declared), name@) is None,
        },
{
    let ghost m = schema_base_model(*declared);
    proof {
        assert(m.skip(0) =~= m);
    }
    let mut k: usize = 0;
    while k < declared.len()
        invariant
            k <= declared@.len(),
            m == schema_base_model(*declared),
            lookup_type(m, name@) == lookup_type(m.skip(k as int), name@),
        decreases declared@.len() - k,
    {
        if declared[k].0 == *name {
            proof {
                assert(m.skip(k as int)[0] == m[k as int]);
                assert(lookup_type(m.skip(k as int), name@) == Some(m[k as int].1));
            }
            return Some(&declared[k].1);
        }
        proof {
            assert(m.skip(k as int)[0] == m[k as int]);
            assert(m.skip(k as int).drop_first() =~= m.skip(k as int + 1));
        }
        k += 1;
    }
    proof {
        assert(m.skip(declared@.len() as int).len() == 0);
    }
    None
}

} // verus!
