//! The uniform response envelope and its unwrapping.
//!
//! Every JSON response of the service is wrapped in one envelope shape:
//! `{ success, error, detail, data }`.  This module decodes the envelope
//! from a JSON document, and unwraps a decoded envelope into a typed
//! result or a typed error.

use vstd::prelude::*;
use crate::error::{ApiError, ErrorValue, ErrorValueData, ev_view, spec_ev_from_json};
use crate::json::{JsonData, JsonVal, clone_json, json_of, jview, obj_get, parse_json,
    spec_field_get};

verus! {

/// The uniform success/error wrapper all JSON responses share.
#[derive(Debug, PartialEq, Eq)]
pub struct ApiResponse<T> {
    pub success: bool,
    pub error: Option<ErrorValue>,
    pub detail: Option<String>,
    pub data: Option<T>,
}

/// The mathematical value of a decoded envelope whose payload is an
/// arbitrary JSON document.
pub struct EnvelopeData {
    pub success: bool,
    pub error: Option<ErrorValueData>,
    pub detail: Option<Seq<char>>,
    pub data: Option<JsonData>,
}

/// The mathematical value of an `ApiResponse<JsonVal>`.
pub open spec fn env_view(env: ApiResponse<JsonVal>) -> EnvelopeData {
    EnvelopeData {
        success: env.success,
        error: match env.error {
            Some(e) => Some(ev_view(e)),
            None => None,
        },
        detail: match env.detail {
            Some(d) => Some(d@),
            None => None,
        },
        data: match env.data {
            Some(d) => Some(jview(d)),
            None => None,
        },
    }
}

/// Decoding the `error` field: absent or `null` is no error; otherwise
/// the field must decode as an error value.  The outer `None` means the
/// envelope is malformed.
pub open spec fn spec_error_field(f: Option<JsonData>) -> Option<Option<ErrorValueData>> {
    match f {
        None => Some(None),
        Some(JsonData::Null) => Some(None),
        Some(d) => match spec_ev_from_json(d) {
            Some(e) => Some(Some(e)),
            None => None,
        },
    }
}

/// Decoding the `detail` field: absent or `null` is no detail; a string
/// is the detail; anything else is malformed.
pub open spec fn spec_detail_field(f: Option<JsonData>) -> Option<Option<Seq<char>>> {
    match f {
        None => Some(None),
        Some(JsonData::Null) => Some(None),
        Some(JsonData::Str(s)) => Some(Some(s)),
        Some(_) => None,
    }
}

/// Decoding the `data` field: absent or `null` is no data; any other
/// document is the data.
pub open spec fn spec_data_field(f: Option<JsonData>) -> Option<JsonData> {
    match f {
        None => None,
        Some(JsonData::Null) => None,
        Some(d) => Some(d),
    }
}

/// Decoding an envelope from a JSON document.  The document must be an
/// object whose `success` field is a boolean; `error`, `detail` and
/// `data` may each be absent or `null`.
pub open spec fn spec_envelope_of(d: JsonData) -> Option<EnvelopeData> {
    match d {
        JsonData::Obj(fields) => {
            let success = spec_field_get(fields, "success"@);
            let error = spec_error_field(spec_field_get(fields, "error"@));
            let detail = spec_detail_field(spec_field_get(fields, "detail"@));
            if success matches Some(JsonData::Bool(b)) && error is Some && detail is Some {
                Some(
                    EnvelopeData {
                        success: success->Some_0->Bool_0,
                        error: error->Some_0,
                        detail: detail->Some_0,
                        data: spec_data_field(spec_field_get(fields, "data"@)),
                    },
                )
            } else {
                None
            }
        },
        _ => None,
    }
}

/// Decodes the envelope shape from a parsed JSON document.
pub fn envelope_from_json(j: &JsonVal) -> (r: Option<ApiResponse<JsonVal>>)
    ensures
        match r {
            Some(env) => spec_envelope_of(jview(*j)) == Some(env_view(env)),
            None => spec_envelope_of(jview(*j)) is None,
        },
{
    match j {
        JsonVal::Obj(fields) => {
            let success: bool = match obj_get(fields, "success") {
                Some(JsonVal::Bool(b)) => *b,
                _ => {
                    return None;
                },
            };
            let error: Option<ErrorValue> = match obj_get(fields, "error") {
                None => None,
                Some(JsonVal::Null) => None,
                Some(v) => match ErrorValue::from_json(v) {
                    Some(e) => Some(e),
                    None => {
                        return None;
                    },
                },
            };
            let detail: Option<String> = match obj_get(fields, "detail") {
                None => None,
                Some(JsonVal::Null) => None,
                Some(JsonVal::Str(s)) => Some(s.clone()),
                Some(_) => {
                    return None;
                },
            };
            let data: Option<JsonVal> = match obj_get(fields, "data") {
                None => None,
                Some(JsonVal::Null) => None,
                Some(v) => Some(clone_json(v)),
            };
            Some(ApiResponse { success, error, detail, data })
        },
        _ => None,
    }
}

/// Parses raw bytes and decodes the envelope shape.  Bytes that are not
/// valid JSON, or JSON that is not an envelope, give the JSON error
/// kind, distinct from a transport error.
pub fn decode_envelope_bytes(bytes: &[u8]) -> (r: Result<ApiResponse<JsonVal>, ApiError>)
    ensures
        match r {
            Ok(env) => json_of(bytes@) matches Some(j) && spec_envelope_of(jview(j)) == Some(
                env_view(env),
            ),
            Err(e) => {
                &&& e is SerdeError
                &&& match json_of(bytes@) {
                    None => true,
                    Some(j) => spec_envelope_of(jview(j)) is None,
                }
            },
        },
{
    match parse_json(bytes) {
        None => Err(ApiError::SerdeError("response body is not valid JSON".to_owned())),
        Some(j) => match envelope_from_json(&j) {
            Some(env) => Ok(env),
            None => Err(ApiError::SerdeError("JSON is not a response envelope".to_owned())),
        },
    }
}

/// Unwrapping an envelope whose caller requires data: success with data
/// yields the data; an explicit failure with an error payload yields
/// that payload; every other combination is an unexpected payload.
pub open spec fn spec_unwrap_data<T>(env: ApiResponse<T>) -> Result<T, ApiError> {
    if env.success {
        match env.data {
            Some(d) => Ok(d),
            None => Err(ApiError::UnexpectedPayload),
        }
    } else {
        match env.error {
            Some(e) => Err(ApiError::Failure(e)),
            None => Err(ApiError::UnexpectedPayload),
        }
    }
}

/// Unwrapping an envelope whose caller treats missing data as a valid,
/// empty result.
pub open spec fn spec_unwrap_optional_data<T>(env: ApiResponse<T>) -> Result<
    Option<T>,
    ApiError,
> {
    if env.success {
        Ok(env.data)
    } else {
        match env.error {
            Some(e) => Err(ApiError::Failure(e)),
            None => Err(ApiError::UnexpectedPayload),
        }
    }
}

impl<T> ApiResponse<T> {
    /// Unwraps the envelope into the data the caller requires, or the
    /// error the server reported, or the unexpected-payload kind when
    /// the combination of fields matches neither.
    pub fn unwrap_data(self) -> (r: Result<T, ApiError>)
        ensures
            r == spec_unwrap_data(self),
    {
        if self.success {
            match self.data {
                Some(d) => Ok(d),
                None => Err(ApiError::UnexpectedPayload),
            }
        } else {
            match self.error {
                Some(e) => Err(ApiError::Failure(e)),
                None => Err(ApiError::UnexpectedPayload),
            }
        }
    }

    /// Unwraps the envelope, treating `success = true` with absent data
    /// as a valid-but-empty result rather than an error.
    pub fn unwrap_optional_data(self) -> (r: Result<Option<T>, ApiError>)
        ensures
            r == spec_unwrap_optional_data(self),
    {
        if self.success {
            Ok(self.data)
        } else {
            match self.error {
                Some(e) => Err(ApiError::Failure(e)),
                None => Err(ApiError::UnexpectedPayload),
            }
        }
    }

    /// Applies `f` to the data, keeping every other field of the
    /// envelope as it was.
    pub fn map<U, F: FnOnce(T) -> U>(self, f: F) -> (r: ApiResponse<U>)
        requires
            self.data matches Some(t) ==> call_requires(f, (t,)),
        ensures
            r.success == self.success,
            r.error == self.error,
            r.detail == self.detail,
            (r.data is Some) == (self.data is Some),
            self.data matches Some(t) ==> call_ensures(f, (t,), r.data->Some_0),
    {
        let data = match self.data {
            Some(t) => Some(f(t)),
            None => None,
        };
        ApiResponse { success: self.success, error: self.error, detail: self.detail, data }
    }
}

/// A successful envelope carrying data unwraps to exactly that data.
pub proof fn lemma_unwrap_success_data<T>(env: ApiResponse<T>)
    requires
        env.success,
        env.data is Some,
    ensures
        spec_unwrap_data(env) == Ok::<T, ApiError>(env.data->Some_0),
{
}

/// A failed envelope carrying an error payload unwraps to exactly that
/// payload, preserved inside the failure kind.
pub proof fn lemma_unwrap_failure<T>(env: ApiResponse<T>)
    requires
        !env.success,
        env.error is Some,
    ensures
        spec_unwrap_data(env) == Err::<T, ApiError>(ApiError::Failure(env.error->Some_0)),
{
}

/// A successful envelope without data, handed to a caller that requires
/// data, unwraps to the unexpected-payload error.
pub proof fn lemma_unwrap_missing_data<T>(env: ApiResponse<T>)
    requires
        env.success,
        env.data is None,
    ensures
        spec_unwrap_data(env) == Err::<T, ApiError>(ApiError::UnexpectedPayload),
{
}

} // verus!
