//! The wire codec for schema descriptions.
//!
//! A primitive kind is carried as its bare tag string (`"Bool"`, `"Int"`,
//! `"Float"`, `"String"`, `"Null"`); a list or a map is carried as a
//! single-key object whose key is `"List"` or `"Map"` and whose value holds
//! the nested descriptions. Decoding inverts encoding exactly: for every
//! constructible description, decoding its encoding yields it back.

use vstd::prelude::*;
use crate::json::{JsonModel, JsonValue, json_fields_model, json_items_model, json_model};
use crate::schema::{SchemaTypeModel, SchemaValueType, schema_base_model, schema_model,
    schema_types_model};

verus! {

broadcast use vstd::string::to_string_from_display_ensures_for_str;

/// The encoding of one schema description.
pub open spec fn encoded_type(t: SchemaTypeModel) -> JsonModel
    decreases t,
{
    match t {
        SchemaTypeModel::Bool => JsonModel::String("Bool"@),
        SchemaTypeModel::Int => JsonModel::String("Int"@),
        SchemaTypeModel::Float => JsonModel::String("Float"@),
        SchemaTypeModel::String => JsonModel::String("String"@),
        SchemaTypeModel::Null => JsonModel::String("Null"@),
        SchemaTypeModel::List(ts) => JsonModel::Object(
            seq![("List"@, JsonModel::Array(encoded_types(ts)))],
        ),
        SchemaTypeModel::Dict(fs) => JsonModel::Object(
            seq![("Map"@, JsonModel::Object(encoded_fields(fs)))],
        ),
    }
}

/// The encodings of a list of descriptions, in order.
pub open spec fn encoded_types(ts: Seq<SchemaTypeModel>) -> Seq<JsonModel>
    decreases ts,
{
    Seq::new(
        ts.len(),
        |i: int|
            if 0 <= i < ts.len() {
                encoded_type(ts[i])
            } else {
                JsonModel::Null
            },
    )
}

/// The encodings of a field map, in order: each name kept, each declared
/// type encoded.
pub open spec fn encoded_fields(fs: Seq<(Seq<char>, SchemaTypeModel)>) -> Seq<
    (Seq<char>, JsonModel),
>
    decreases fs,
{
    Seq::new(
        fs.len(),
        |i: int|
            if 0 <= i < fs.len() {
                (fs[i].0, encoded_type(fs[i].1))
            } else {
                (Seq::empty(), JsonModel::Null)
            },
    )
}

/// The description a bare tag string stands for, if any.
pub open spec fn decoded_primitive(s: Seq<char>) -> Option<SchemaTypeModel> {
    if s == "Bool"@ {
        Some(SchemaTypeModel::Bool)
    } else if s == "Int"@ {
        Some(SchemaTypeModel::Int)
    } else if s == "Float"@ {
        Some(SchemaTypeModel::Float)
    } else if s == "String"@ {
        Some(SchemaTypeModel::String)
    } else if s == "Null"@ {
        Some(SchemaTypeModel::Null)
    } else {
        None
    }
}

/// The schema description a JSON tree encodes, if any.
pub open spec fn decoded_type(j: JsonModel) -> Option<SchemaTypeModel>
    decreases j, 0int,
{
    match j {
        JsonModel::String(s) => decoded_primitive(s),
        JsonModel::Object(fields) => if fields.len() == 1 && fields[0].0 == "List"@ {
            match fields[0].1 {
                JsonModel::Array(items) => if list_decodes_from(items, 0) {
                    Some(SchemaTypeModel::List(decoded_items(items)))
                } else {
                    None
                },
                _ => None,
            }
        } else if fields.len() == 1 && fields[0].0 == "Map"@ {
            match fields[0].1 {
                JsonModel::Object(entries) => if fields_decode_from(entries, 0) {
                    Some(SchemaTypeModel::Dict(decoded_entries(entries)))
                } else {
                    None
                },
                _ => None,
            }
        } else {
            None
        },
        _ => None,
    }
}

/// Whether every array entry from position `k` on encodes some description.
pub open spec fn list_decodes_from(items: Seq<JsonModel>, k: int) -> bool
    decreases items, items.len() - k,
{
    if k < 0 || k >= items.len() {
        true
    } else {
        decoded_type(items[k]) is Some && list_decodes_from(items, k + 1)
    }
}

/// The descriptions an array's entries encode; meaningful where each entry
/// decodes.
pub open spec fn decoded_items(items: Seq<JsonModel>) -> Seq<SchemaTypeModel>
    decreases items, 0int,
{
    Seq::new(
        items.len(),
        |i: int|
            if 0 <= i < items.len() {
                decoded_type(items[i])->Some_0
            } else {
                SchemaTypeModel::Null
            },
    )
}

/// Whether every object field value from position `k` on encodes some
/// description.
pub open spec fn fields_decode_from(entries: Seq<(Seq<char>, JsonModel)>, k: int) -> bool
    decreases entries, entries.len() - k,
{
    if k < 0 || k >= entries.len() {
        true
    } else {
        decoded_type(entries[k].1) is Some && fields_decode_from(entries, k + 1)
    }
}

/// The field map an object's fields encode; meaningful where each value
/// decodes.
pub open spec fn decoded_entries(entries: Seq<(Seq<char>, JsonModel)>) -> Seq<
    (Seq<char>, SchemaTypeModel),
>
    decreases entries, 0int,
{
    Seq::new(
        entries.len(),
        |i: int|
            if 0 <= i < entries.len() {
                (entries[i].0, decoded_type(entries[i].1)->Some_0)
            } else {
                (Seq::empty(), SchemaTypeModel::Null)
            },
    )
}

/// Round trip: decoding the encoding of any constructible schema
/// description yields exactly that description.
pub proof fn lemma_round_trip(t: SchemaTypeModel)
    ensures
        decoded_type(encoded_type(t)) == Some(t),
    decreases t, 0int,
{
    reveal_strlit("Bool");
    reveal_strlit("Int");
    reveal_strlit("Float");
    reveal_strlit("String");
    reveal_strlit("Null");
    reveal_strlit("List");
    reveal_strlit("Map");
    assert("Bool"@.len() == 4);
    assert("Int"@.len() == 3);
    assert("Float"@.len() == 5);
    assert("String"@.len() == 6);
    assert("Null"@.len() == 4);
    assert("List"@.len() == 4);
    assert("Map"@.len() == 3);
    assert("Bool"@[0] == 'B');
    assert("Null"@[0] == 'N');
    assert("List"@[0] == 'L');
    match t {
        SchemaTypeModel::List(ts) => {
            let e = encoded_type(t);
            let es = encoded_types(ts);
            lemma_encoded_types_round_trip(ts, 0);
            assert(e->Object_0.len() == 1);
            assert(e->Object_0[0].0 == "List"@);
            assert forall|i: int| 0 <= i < ts.len() implies decoded_items(es)[i] == ts[i] by {
                assert(es[i] == encoded_type(ts[i]));
                assert(decoded_type(es[i]) == Some(ts[i]));
            }
            assert(decoded_items(es) =~= ts);
        },
        SchemaTypeModel::Dict(fs) => {
            let e = encoded_type(t);
            let efs = encoded_fields(fs);
            lemma_encoded_fields_round_trip(fs, 0);
            assert(e->Object_0.len() == 1);
            assert(e->Object_0[0].0 == "Map"@);
            assert forall|i: int| 0 <= i < fs.len() implies decoded_entries(efs)[i] == fs[i] by {
                assert(efs[i] == (fs[i].0, encoded_type(fs[i].1)));
                assert(decoded_type(efs[i].1) == Some(fs[i].1));
            }
            assert(decoded_entries(efs) =~= fs);
        },
        _ => {
        },
    }
}

proof fn lemma_encoded_types_round_trip(ts: Seq<SchemaTypeModel>, k: int)
    requires
        0 <= k <= ts.len(),
    ensures
        list_decodes_from(encoded_types(ts), k),
        forall|i: int|
            k <= i < ts.len() ==> #[trigger] decoded_type(encoded_types(ts)[i]) == Some(ts[i]),
    decreases ts, ts.len() - k,
{
    if k < ts.len() {
        lemma_round_trip(ts[k]);
        assert(encoded_types(ts)[k] == encoded_type(ts[k]));
        lemma_encoded_types_round_trip(ts, k + 1);
        assert(list_decodes_from(encoded_types(ts), k) == (decoded_type(
            encoded_types(ts)[k],
        ) is Some && list_decodes_from(encoded_types(ts), k + 1)));
    }
}

proof fn lemma_encoded_fields_round_trip(fs: Seq<(Seq<char>, SchemaTypeModel)>, k: int)
    requires
        0 <= k <= fs.len(),
    ensures
        fields_decode_from(encoded_fields(fs), k),
        forall|i: int|
            k <= i < fs.len() ==> #[trigger] decoded_type(encoded_fields(fs)[i].1) == Some(
                fs[i].1,
            ),
    decreases fs, fs.len() - k,
{
    if k < fs.len() {
        lemma_round_trip(fs[k].1);
        assert(encoded_fields(fs)[k] == (fs[k].0, encoded_type(fs[k].1)));
        lemma_encoded_fields_round_trip(fs, k + 1);
        assert(fields_decode_from(encoded_fields(fs), k) == (decoded_type(
            encoded_fields(fs)[k].1,
        ) is Some && fields_decode_from(encoded_fields(fs), k + 1)));
    }
}


/// Encodes a schema description into its wire JSON tree.
#[verifier::loop_isolation(false)]
pub fn encode_type(t: &SchemaValueType) -> (r: JsonValue)
    ensures
        r@ == encoded_type(t@),
    decreases *t,
{
    match t {
        SchemaValueType::Bool => JsonValue::String("Bool".to_string()),
        SchemaValueType::Int => JsonValue::String("Int".to_string()),
        SchemaValueType::Float => JsonValue::String("Float".to_string()),
        SchemaValueType::String => JsonValue::String("String".to_string()),
        SchemaValueType::Null => JsonValue::String("Null".to_string()),
        SchemaValueType::List(ts) => {
            let mut out: Vec<JsonValue> = Vec::new();
            let mut k: usize = 0;
            while k < ts.len()
                invariant
                    k <= ts@.len(),
                    out@.len() == k,
                    forall|i: int| 0 <= i < k ==> #[trigger] out[i]@ == encoded_type(
                        schema_types_model(*ts)[i],
                    ),
                decreases ts@.len() - k,
            {
                proof {
                    assert(decreases_to!(*t => (*t)->List_0));
                    assert((*t)->List_0 == *ts);
                    assert(decreases_to!(*ts => ts@[k as int]));
                }
                let e = encode_type(&ts[k]);
                proof {
                    assert(schema_types_model(*ts)[k as int] == schema_model(ts@[k as int]));
                }
                let ghost prev = out@;
                out.push(e);
                proof {
                    assert forall|i: int| 0 <= i < k + 1 implies #[trigger] out[i]@
                        == encoded_type(schema_types_model(*ts)[i]) by {
                        if i < k {
                            assert(out[i] == prev[i]);
                            assert(prev[i]@ == encoded_type(schema_types_model(*ts)[i]));
                        }
                    }
                }
                k += 1;
            }
            let mut pairs: Vec<(String, JsonValue)> = Vec::new();
            pairs.push(("List".to_string(), JsonValue::Array(out)));
            let r = JsonValue::Object(pairs);
            proof {
                let stm = schema_types_model(*ts);
                let es = encoded_types(stm);
                assert(json_fields_model(pairs)[0] == (pairs@[0].0@, json_model(pairs@[0].1)));
                assert(json_model(pairs@[0].1) == JsonModel::Array(json_items_model(out)));
                assert forall|i: int| 0 <= i < es.len() implies json_items_model(out)[i]
                    == es[i] by {
                    assert(json_items_model(out)[i] == json_model(out@[i]));
                    assert(out[i]@ == encoded_type(stm[i]));
                    assert(es[i] == encoded_type(stm[i]));
                }
                assert(json_items_model(out) =~= es);
                assert(json_fields_model(pairs) =~= encoded_type(t@)->Object_0);
            }
            r
        },
        SchemaValueType::Dict(fs) => {
            let mut out: Vec<(String, JsonValue)> = Vec::new();
            let mut k: usize = 0;
            while k < fs.len()
                invariant
                    k <= fs@.len(),
                    out@.len() == k,
                    forall|i: int| 0 <= i < k ==> #[trigger] out[i].0@ == schema_base_model(
                        *fs,
                    )[i].0,
                    forall|i: int| 0 <= i < k ==> #[trigger] out[i].1@ == encoded_type(
                        schema_base_model(*fs)[i].1,
                    ),
                decreases fs@.len() - k,
            {
                proof {
                    assert(decreases_to!(*t => (*t)->Dict_0));
                    assert((*t)->Dict_0 == *fs);
                    assert(decreases_to!(*fs => fs@[k as int]));
                    assert(decreases_to!(fs@[k as int] => fs@[k as int].1));
                }
                let name = fs[k].0.clone();
                let e = encode_type(&fs[k].1);
                proof {
                    assert(schema_base_model(*fs)[k as int] == (
                        fs@[k as int].0@,
                        schema_model(fs@[k as int].1),
                    ));
                }
                let ghost prev = out@;
                out.push((name, e));
                proof {
                    assert forall|i: int| 0 <= i < k + 1 implies #[trigger] out[i].0@
                        == schema_base_model(*fs)[i].0 && #[trigger] out[i].1@ == encoded_type(
                        schema_base_model(*fs)[i].1,
                    ) by {
                        if i < k {
                            assert(out[i] == prev[i]);
                            assert(prev[i].0@ == schema_base_model(*fs)[i].0);
                            assert(prev[i].1@ == encoded_type(schema_base_model(*fs)[i].1));
                        }
                    }
                }
                k += 1;
            }
            let mut pairs: Vec<(String, JsonValue)> = Vec::new();
            pairs.push(("Map".to_string(), JsonValue::Object(out)));
            let r = JsonValue::Object(pairs);
            proof {
                let sbm = schema_base_model(*fs);
                let efs = encoded_fields(sbm);
                assert(json_fields_model(pairs)[0] == (pairs@[0].0@, json_model(pairs@[0].1)));
                assert(json_model(pairs@[0].1) == JsonModel::Object(json_fields_model(out)));
                assert forall|i: int| 0 <= i < efs.len() implies json_fields_model(out)[i]
                    == efs[i] by {
                    assert(json_fields_model(out)[i] == (out@[i].0@, json_model(out@[i].1)));
                    assert(out[i].0@ == sbm[i].0);
                    assert(out[i].1@ == encoded_type(sbm[i].1));
                    assert(efs[i] == (sbm[i].0, encoded_type(sbm[i].1)));
                }
                assert(json_fields_model(out) =~= efs);
                assert(json_fields_model(pairs) =~= encoded_type(t@)->Object_0);
            }
            r
        },
    }
}

/// Decodes a bare tag string into the primitive description it stands for,
/// if any.
fn decode_primitive(s: &String) -> (r: Option<SchemaValueType>)
    ensures
        match r {
            Some(t) => decoded_primitive(s@) == Some(t@),
            None => decoded_primitive(s@) is None,
        },
{
    if *s == "Bool".to_string() {
        Some(SchemaValueType::Bool)
    } else if *s == "Int".to_string() {
        Some(SchemaValueType::Int)
    } else if *s == "Float".to_string() {
        Some(SchemaValueType::Float)
    } else if *s == "String".to_string() {
        Some(SchemaValueType::String)
    } else if *s == "Null".to_string() {
        Some(SchemaValueType::Null)
    } else {
        None
    }
}

/// Decodes a wire JSON tree into the schema description it encodes, if any.
pub fn decode_type(j: &JsonValue) -> (r: Option<SchemaValueType>)
    ensures
        match r {
            Some(t) => decoded_type(j@) == Some(t@),
            None => decoded_type(j@) is None,
        },
    decreases *j,
{
    match j {
        JsonValue::String(s) => decode_primitive(s),
        JsonValue::Object(fields) => {
            if fields.len() != 1 {
                return None;
            }
            proof {
                assert(json_fields_model(*fields)[0] == (
                    fields@[0].0@,
                    json_model(fields@[0].1),
                ));
            }
            let name = &fields[0].0;
            let inner = &fields[0].1;
            if *name == "List".to_string() {
                match inner {
                    JsonValue::Array(items) => {
                        proof {
                            assert(decreases_to!(*j => (*j)->Object_0));
                            assert((*j)->Object_0 == *fields);
                            assert(decreases_to!(*fields => fields@[0]));
                            assert(decreases_to!(fields@[0] => fields@[0].1));
                            assert(decreases_to!(fields@[0].1 => fields@[0].1->Array_0));
                            assert(fields@[0].1->Array_0 == *items);
                        }
                        match decode_type_list(items) {
                            Some(ts) => Some(SchemaValueType::List(ts)),
                            None => None,
                        }
                    },
                    _ => None,
                }
            } else if *name == "Map".to_string() {
                match inner {
                    JsonValue::Object(entries) => {
                        proof {
                            assert(decreases_to!(*j => (*j)->Object_0));
                            assert((*j)->Object_0 == *fields);
                            assert(decreases_to!(*fields => fields@[0]));
                            assert(decreases_to!(fields@[0] => fields@[0].1));
                            assert(decreases_to!(fields@[0].1 => fields@[0].1->Object_0));
                            assert(fields@[0].1->Object_0 == *entries);
                        }
                        match decode_type_fields(entries) {
                            Some(fs) => Some(SchemaValueType::Dict(fs)),
                            None => None,
                        }
                    },
                    _ => None,
                }
            } else {
                None
            }
        },
        _ => None,
    }
}

/// Decodes each entry of an encoded list, or reports that some entry does
/// not decode.
fn decode_type_list(items: &Vec<JsonValue>) -> (r: Option<Vec<SchemaValueType>>)
    ensures
        match r {
            Some(ts) => list_decodes_from(json_items_model(*items), 0) && schema_types_model(ts)
                == decoded_items(json_items_model(*items)),
            None => !list_decodes_from(json_items_model(*items), 0),
        },
    decreases *items,
{
    let ghost im = json_items_model(*items);
    let mut out: Vec<SchemaValueType> = Vec::new();
    let mut k: usize = 0;
    while k < items.len()
        invariant
            k <= items@.len(),
            im == json_items_model(*items),
            out@.len() == k,
            list_decodes_from(im, 0) == list_decodes_from(im, k as int),
            forall|i: int| 0 <= i < k ==> #[trigger] out[i]@ == decoded_type(im[i])->Some_0,
        decreases items@.len() - k,
    {
        proof {
            assert(im[k as int] == json_model(items@[k as int]));
        }
        let decoded = decode_type(&items[k]);
        let t = match decoded {
            Some(t) => t,
            None => {
                return None;
            },
        };
        let ghost prev = out@;
        out.push(t);
        proof {
            assert forall|i: int| 0 <= i < k + 1 implies #[trigger] out[i]@ == decoded_type(
                im[i],
            )->Some_0 by {
                if i < k {
                    assert(out[i] == prev[i]);
                    assert(prev[i]@ == decoded_type(im[i])->Some_0);
                }
            }
        }
        k += 1;
    }
    proof {
        assert forall|i: int| 0 <= i < im.len() implies schema_types_model(out)[i]
            == decoded_items(im)[i] by {
            assert(out[i]@ == decoded_type(im[i])->Some_0);
        }
        assert(schema_types_model(out) =~= decoded_items(im));
    }
    Some(out)
}

/// Decodes each field of an encoded map, or reports that some field value
/// does not decode.
fn decode_type_fields(entries: &Vec<(String, JsonValue)>) -> (r: Option<
    Vec<(String, SchemaValueType)>,
>)
    ensures
        match r {
            Some(fs) => fields_decode_from(json_fields_model(*entries), 0) && schema_base_model(
                fs,
            ) == decoded_entries(json_fields_model(*entries)),
            None => !fields_decode_from(json_fields_model(*entries), 0),
        },
    decreases *entries,
{
    let ghost em = json_fields_model(*entries);
    let mut out: Vec<(String, SchemaValueType)> = Vec::new();
    let mut k: usize = 0;
    while k < entries.len()
        invariant
            k <= entries@.len(),
            em == json_fields_model(*entries),
            out@.len() == k,
            fields_decode_from(em, 0) == fields_decode_from(em, k as int),
            forall|i: int| 0 <= i < k ==> #[trigger] out[i].0@ == em[i].0,
            forall|i: int| 0 <= i < k ==> #[trigger] out[i].1@ == decoded_type(em[i].1)->Some_0,
        decreases entries@.len() - k,
    {
        proof {
            assert(em[k as int] == (entries@[k as int].0@, json_model(entries@[k as int].1)));
        }
        let decoded = decode_type(&entries[k].1);
        let t = match decoded {
            Some(t) => t,
            None => {
                return None;
            },
        };
        let name = entries[k].0.clone();
        let ghost prev = out@;
        out.push((name, t));
        proof {
            assert forall|i: int| 0 <= i < k + 1 implies #[trigger] out[i].0@ == em[i].0
                && #[trigger] out[i].1@ == decoded_type(em[i].1)->Some_0 by {
                if i < k {
                    assert(out[i] == prev[i]);
                    assert(prev[i].0@ == em[i].0);
                    assert(prev[i].1@ == decoded_type(em[i].1)->Some_0);
                }
            }
        }
        k += 1;
    }
    proof {
        assert forall|i: int| 0 <= i < em.len() implies schema_base_model(out)[i]
            == decoded_entries(em)[i] by {
            assert(out[i].0@ == em[i].0);
            assert(out[i].1@ == decoded_type(em[i].1)->Some_0);
        }
        assert(schema_base_model(out) =~= decoded_entries(em));
    }
    Some(out)
}

} // verus!
