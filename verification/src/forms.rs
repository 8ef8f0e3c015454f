//! Plain-value form and query fields.
//!
//! Request bodies that go out as `multipart/form-data`, and requests
//! serialized as query strings, are built here as named plain values.
//! The transport turns each value into its textual or binary wire form;
//! which fields are present, their names, values and order are decided
//! and verified here.

use vstd::prelude::*;

verus! {

/// A plain value carried by one form or query field.
#[derive(Debug, Clone, PartialEq, Eq)]
pub enum FieldValue {
    Text(String),
    UInt(u64),
    Flag(bool),
    Bytes(Vec<u8>),
}

/// The mathematical value of a [`FieldValue`].
pub enum FieldValueData {
    Text(Seq<char>),
    UInt(u64),
    Flag(bool),
    Bytes(Seq<u8>),
}

/// The mathematical value of a [`FieldValue`].
pub open spec fn fv_view(v: FieldValue) -> FieldValueData {
    match v {
        FieldValue::Text(s) => FieldValueData::Text(s@),
        FieldValue::UInt(u) => FieldValueData::UInt(u),
        FieldValue::Flag(b) => FieldValueData::Flag(b),
        FieldValue::Bytes(b) => FieldValueData::Bytes(b@),
    }
}

/// One named field of a form body or query string.
#[derive(Debug, Clone, PartialEq, Eq)]
pub struct FormPart {
    pub name: String,
    pub value: FieldValue,
}

/// The mathematical value of a [`FormPart`].
pub open spec fn part_view(p: FormPart) -> (Seq<char>, FieldValueData) {
    (p.name@, fv_view(p.value))
}

/// The mathematical values of a list of parts, in order.
pub open spec fn parts_view(parts: Seq<FormPart>) -> Seq<(Seq<char>, FieldValueData)> {
    Seq::new(parts.len(), |i: int| part_view(parts[i]))
}

impl FormPart {
    /// A field holding text.
    pub fn text(name: &str, value: String) -> (r: FormPart)
        ensures
            part_view(r) == (name@, FieldValueData::Text(value@)),
    {
        FormPart { name: name.to_owned(), value: FieldValue::Text(value) }
    }

    /// A field holding an unsigned number.
    pub fn uint(name: &str, value: u64) -> (r: FormPart)
        ensures
            part_view(r) == (name@, FieldValueData::UInt(value)),
    {
        FormPart { name: name.to_owned(), value: FieldValue::UInt(value) }
    }

    /// A field holding a boolean.
    pub fn flag(name: &str, value: bool) -> (r: FormPart)
        ensures
            part_view(r) == (name@, FieldValueData::Flag(value)),
    {
        FormPart { name: name.to_owned(), value: FieldValue::Flag(value) }
    }

    /// A field holding raw bytes.
    pub fn bytes(name: &str, value: Vec<u8>) -> (r: FormPart)
        ensures
            part_view(r) == (name@, FieldValueData::Bytes(value@)),
    {
        FormPart { name: name.to_owned(), value: FieldValue::Bytes(value) }
    }
}

} // verus!
