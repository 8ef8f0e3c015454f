//! The one-or-many wire union and its normalization.
//!
//! List endpoints of the service return either a bare object or an array
//! when a filter matches exactly one item.  The normalizer collapses the
//! two shapes into one list, keeping element order.

use vstd::prelude::*;
use crate::api::ApiResponse;
use crate::json::{JsonData, JsonVal, arr_view, jview};

verus! {

/// A wire-level union between a bare item and a list of items.
#[derive(Debug, PartialEq, Eq)]
pub enum OneOrMany<T> {
    One(T),
    Many(Vec<T>),
}

/// The list a one-or-many value stands for: a single item is a
/// one-element list, a list is itself, in the same order.
pub open spec fn spec_normalize<T>(v: OneOrMany<T>) -> Seq<T> {
    match v {
        OneOrMany::One(x) => seq![x],
        OneOrMany::Many(xs) => xs@,
    }
}

impl<T> OneOrMany<T> {
    /// Collapses to a list: a single item becomes a one-element list, a
    /// list passes through unchanged, element order kept.
    pub fn normalize(self) -> (r: Vec<T>)
        ensures
            r@ == spec_normalize(self),
    {
        match self {
            OneOrMany::One(x) => {
                let mut out: Vec<T> = Vec::new();
                out.push(x);
                proof {
                    assert(out@ =~= seq![x]);
                }
                out
            },
            OneOrMany::Many(xs) => xs,
        }
    }
}

/// A single item normalizes to exactly the one-element list holding it.
pub proof fn lemma_normalize_one<T>(x: T)
    ensures
        spec_normalize(OneOrMany::One(x)) =~= seq![x],
{
}

/// A list normalizes to itself, every element in its old place.
pub proof fn lemma_normalize_many<T>(xs: Vec<T>)
    ensures
        spec_normalize(OneOrMany::Many(xs)) == xs@,
{
}

/// Normalizes an optional one-or-many payload: absent stays absent.
pub fn normalize_opt<T>(v: Option<OneOrMany<T>>) -> (r: Option<Vec<T>>)
    ensures
        match v {
            None => r is None,
            Some(x) => r matches Some(out) && out@ == spec_normalize(x),
        },
{
    match v {
        None => None,
        Some(x) => Some(x.normalize()),
    }
}

/// Normalizes the payload of a whole envelope, keeping every other
/// field of the envelope as it was.
pub fn normalize_list_response<T>(resp: ApiResponse<Option<OneOrMany<T>>>) -> (r: ApiResponse<
    Option<Vec<T>>,
>)
    ensures
        r.success == resp.success,
        r.error == resp.error,
        r.detail == resp.detail,
        match resp.data {
            None => r.data is None,
            Some(None) => r.data == Some(Option::<Vec<T>>::None),
            Some(Some(x)) => r.data matches Some(Some(out)) && out@ == spec_normalize(x),
        },
{
    let data = match resp.data {
        None => None,
        Some(opt) => Some(normalize_opt(opt)),
    };
    ApiResponse { success: resp.success, error: resp.error, detail: resp.detail, data }
}

/// The list a JSON payload stands for under one-or-many decoding: an
/// array is the list of its elements; anything else is a single item.
pub open spec fn spec_one_or_many_of(d: JsonData) -> Seq<JsonData> {
    match d {
        JsonData::Arr(items) => items,
        _ => seq![d],
    }
}

/// Normalizes the payload of a decoded list envelope: absent data stays
/// absent; an array payload is the list of its elements; a bare object
/// payload — the service's habit when exactly one item matches — is a
/// one-element list, not an error.
pub fn normalize_list_data(env: ApiResponse<JsonVal>) -> (r: ApiResponse<Vec<JsonVal>>)
    ensures
        r.success == env.success,
        r.error == env.error,
        r.detail == env.detail,
        match env.data {
            None => r.data is None,
            Some(j) => r.data matches Some(items) && arr_view(items@) == spec_one_or_many_of(
                jview(j),
            ),
        },
{
    let data = match env.data {
        None => None,
        Some(j) => Some(json_to_one_or_many(j).normalize()),
    };
    ApiResponse { success: env.success, error: env.error, detail: env.detail, data }
}

/// Reads a JSON payload as a one-or-many value: an array is many, any
/// other document is one bare item.
pub fn json_to_one_or_many(j: JsonVal) -> (r: OneOrMany<JsonVal>)
    ensures
        arr_view(spec_normalize(r)) == spec_one_or_many_of(jview(j)),
{
    match j {
        JsonVal::Arr(items) => {
            proof {
                assert(arr_view(spec_normalize(OneOrMany::Many(items))) =~= arr_view(items@));
            }
            OneOrMany::Many(items)
        },
        other => {
            proof {
                assert(arr_view(seq![other]) =~= seq![jview(other)]);
            }
            OneOrMany::One(other)
        },
    }
}

} // verus!
