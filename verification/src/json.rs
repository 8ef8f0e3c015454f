//! A plain-value model of JSON documents.
//!
//! The service speaks JSON; the logic that inspects a response (envelope
//! fields, error values, one-or-many payloads) is verified over this
//! model.  Turning raw bytes into a `JsonVal` is the one step delegated
//! to an outside parser, behind [`parse_json`].

use vstd::prelude::*;
use crate::strutil::str_eq;

verus! {

/// A JSON document held as plain values.
///
/// Numbers that fit `u64` or `i64` are held exactly; any other number
/// keeps its decimal text in `NumStr`, so no field of the model is a
/// floating-point value.
#[derive(Debug, PartialEq, Eq)]
pub enum JsonVal {
    Null,
    Bool(bool),
    UInt(u64),
    Int(i64),
    NumStr(String),
    Str(String),
    Arr(Vec<JsonVal>),
    Obj(Vec<(String, JsonVal)>),
}

/// The mathematical value of a JSON document: strings are character
/// sequences, arrays and objects are sequences.  Contracts about JSON
/// handling are stated over this type.
pub enum JsonData {
    Null,
    Bool(bool),
    UInt(u64),
    Int(i64),
    NumStr(Seq<char>),
    Str(Seq<char>),
    Arr(Seq<JsonData>),
    Obj(Seq<(Seq<char>, JsonData)>),
}

/// The mathematical values of an array's elements.
pub open spec fn arr_view(items: Seq<JsonVal>) -> Seq<JsonData>
    decreases items,
{
    Seq::new(
        items.len(),
        |i: int|
            if 0 <= i < items.len() {
                jview(items[i])
            } else {
                JsonData::Null
            },
    )
}

/// The mathematical values of an object's fields, in order.
pub open spec fn fields_view(fields: Seq<(String, JsonVal)>) -> Seq<(Seq<char>, JsonData)>
    decreases fields,
{
    Seq::new(
        fields.len(),
        |i: int|
            if 0 <= i < fields.len() {
                (fields[i].0@, jview(fields[i].1))
            } else {
                (Seq::<char>::empty(), JsonData::Null)
            },
    )
}

/// The mathematical value of a `JsonVal`.
pub open spec fn jview(v: JsonVal) -> JsonData
    decreases v,
{
    match v {
        JsonVal::Null => JsonData::Null,
        JsonVal::Bool(b) => JsonData::Bool(b),
        JsonVal::UInt(u) => JsonData::UInt(u),
        JsonVal::Int(i) => JsonData::Int(i),
        JsonVal::NumStr(s) => JsonData::NumStr(s@),
        JsonVal::Str(s) => JsonData::Str(s@),
        JsonVal::Arr(items) => JsonData::Arr(arr_view(items@)),
        JsonVal::Obj(fields) => JsonData::Obj(fields_view(fields@)),
    }
}

/// The value of the first field named `key`, if any.
pub open spec fn spec_field_get(fields: Seq<(Seq<char>, JsonData)>, key: Seq<char>) -> Option<
    JsonData,
>
    decreases fields.len(),
{
    if fields.len() == 0 {
        None
    } else if fields[0].0 == key {
        Some(fields[0].1)
    } else {
        spec_field_get(fields.drop_first(), key)
    }
}

/// Looks up the first field named `key` in an object's field list.
pub fn obj_get<'a>(fields: &'a Vec<(String, JsonVal)>, key: &str) -> (r: Option<&'a JsonVal>)
    ensures
        match r {
            Some(v) => spec_field_get(fields_view(fields@), key@) == Some(jview(*v)),
            None => spec_field_get(fields_view(fields@), key@) is None,
        },
{
    let n = fields.len();
    let mut i: usize = 0;
    proof {
        assert(fields_view(fields@).skip(0) =~= fields_view(fields@));
    }
    while i < n
        invariant
            i <= n == fields@.len(),
            spec_field_get(fields_view(fields@).skip(i as int), key@) == spec_field_get(
                fields_view(fields@),
                key@,
            ),
        decreases n - i,
    {
        proof {
            assert(fields_view(fields@).skip(i as int)[0] == fields_view(fields@)[i as int]);
            assert(fields_view(fields@).skip(i as int).drop_first() =~= fields_view(fields@).skip(
                i as int + 1,
            ));
        }
        if str_eq(fields[i].0.as_str(), key) {
            return Some(&fields[i].1);
        }
        i = i + 1;
    }
    None
}

/// A deep copy of a JSON value, with the same mathematical value.
pub fn clone_json(v: &JsonVal) -> (r: JsonVal)
    ensures
        jview(r) == jview(*v),
    decreases *v,
{
    match v {
        JsonVal::Null => JsonVal::Null,
        JsonVal::Bool(b) => JsonVal::Bool(*b),
        JsonVal::UInt(u) => JsonVal::UInt(*u),
        JsonVal::Int(i) => JsonVal::Int(*i),
        JsonVal::NumStr(s) => JsonVal::NumStr(s.clone()),
        JsonVal::Str(s) => JsonVal::Str(s.clone()),
        JsonVal::Arr(items) => {
            let mut out: Vec<JsonVal> = Vec::new();
            let n = items.len();
            let mut i: usize = 0;
            while i < n
                invariant
                    i <= n == items@.len(),
                    out@.len() == i,
                    *v == JsonVal::Arr(*items),
                    forall|j: int| 0 <= j < i ==> jview(out@[j]) == jview(items@[j]),
                decreases n - i,
            {
                proof {
                    assert(decreases_to!(*v => v->Arr_0));
                    assert(decreases_to!(v->Arr_0 => v->Arr_0[i as int]));
                    assert(v->Arr_0 == *items);
                    assert(decreases_to!(*v => items[i as int]));
                }
                let c = clone_json(&items[i]);
                out.push(c);
                i = i + 1;
            }
            proof {
                assert(jview(JsonVal::Arr(out))->Arr_0 =~= jview(JsonVal::Arr(*items))->Arr_0);
            }
            JsonVal::Arr(out)
        },
        JsonVal::Obj(fields) => {
            let mut out: Vec<(String, JsonVal)> = Vec::new();
            let n = fields.len();
            let mut i: usize = 0;
            while i < n
                invariant
                    i <= n == fields@.len(),
                    out@.len() == i,
                    *v == JsonVal::Obj(*fields),
                    forall|j: int| #![all_triggers] 0 <= j < i ==> out@[j].0@ == fields@[j].0@
                        && jview(out@[j].1) == jview(fields@[j].1),
                decreases n - i,
            {
                proof {
                    assert(decreases_to!(*v => v->Obj_0));
                    assert(decreases_to!(v->Obj_0 => v->Obj_0[i as int]));
                    assert(decreases_to!(v->Obj_0[i as int] => v->Obj_0[i as int].1));
                    assert(v->Obj_0 == *fields);
                    assert(decreases_to!(*v => fields[i as int].1));
                }
                let k = fields[i].0.clone();
                let c = clone_json(&fields[i].1);
                out.push((k, c));
                i = i + 1;
            }
            proof {
                assert(jview(JsonVal::Obj(out))->Obj_0 =~= jview(JsonVal::Obj(*fields))->Obj_0);
            }
            JsonVal::Obj(out)
        },
    }
}

impl Clone for JsonVal {
    /// A deep copy with the same mathematical value as the original.
    fn clone(&self) -> (r: Self)
        ensures
            jview(r) == jview(*self),
    {
        clone_json(self)
    }
}

#[verifier::external_type_specification]
#[verifier::external_body]
pub struct ExJsonValue(serde_json::Value);

/// The JSON document that `bytes` parse as, if they parse at all.
/// Parsing is a function of the bytes alone; this name stands for its
/// result, and [`parse_json`] is the only place it is given a value.
pub uninterp spec fn json_of(bytes: Seq<u8>) -> Option<JsonVal>;

/// Relies on `serde_json::from_slice::<serde_json::Value>`: returns the
/// parsed document, or `None` when the bytes are not valid JSON.  The
/// outcome depends on the bytes alone.
#[verifier::external_body]
pub(crate) fn parse_json(bytes: &[u8]) -> (r: Option<JsonVal>)
    ensures
        r == json_of(bytes@),
{
    match serde_json::from_slice::<serde_json::Value>(bytes) {
        Ok(v) => Some(convert_value(&v)),
        Err(_) => None,
    }
}

/// Relies on `serde_json::Value`: moves a parsed document into the
/// library's own model, variant by variant.
#[verifier::external_body]
fn convert_value(v: &serde_json::Value) -> JsonVal {
    match v {
        serde_json::Value::Null => JsonVal::Null,
        serde_json::Value::Bool(b) => JsonVal::Bool(*b),
        serde_json::Value::Number(n) => {
            if let Some(u) = n.as_u64() { JsonVal::UInt(u) }
            else if let Some(i) = n.as_i64() { JsonVal::Int(i) }
            else { JsonVal::NumStr(n.to_string()) }
        },
        serde_json::Value::String(s) => JsonVal::Str(s.clone()),
        serde_json::Value::Array(a) => JsonVal::Arr(a.iter().map(convert_value).collect()),
        serde_json::Value::Object(m) => {
            JsonVal::Obj(m.iter().map(|(k, x)| (k.clone(), convert_value(x))).collect())
        },
    }
}

} // verus!
