//! Normalization of download-link responses.
//!
//! A download-link endpoint answers either with a JSON envelope carrying
//! the link, or — when the caller asked for redirect behaviour — with an
//! HTTP redirect whose `Location` header is the link.  The server may
//! answer either way regardless of what was asked, so the normalizer
//! handles both outcomes for both flag values.

use vstd::prelude::*;
use crate::api::{ApiResponse, EnvelopeData, decode_envelope_bytes, env_view, envelope_from_json,
    spec_envelope_of};
use crate::error::{ApiError, ev_view};
use crate::json::{JsonData, JsonVal, json_of, jview};

verus! {

/// A download-link reply: either a JSON envelope whose data is the link,
/// or the target of an HTTP redirect.
#[derive(Debug, PartialEq, Eq)]
pub enum DownloadLinkResponse {
    Json(ApiResponse<String>),
    Redirect(String),
}

/// The `Location` header of a response, as the transport saw it:
/// absent, present but not readable as text, or its text.
#[derive(Debug, PartialEq, Eq)]
pub enum LocationHeader {
    Missing,
    Unreadable,
    Text(String),
}

/// The mathematical value of an envelope whose payload is a string.
pub open spec fn env_str_view(env: ApiResponse<String>) -> EnvelopeData {
    EnvelopeData {
        success: env.success,
        error: match env.error {
            Some(e) => Some(ev_view(e)),
            None => None,
        },
        detail: match env.detail {
            Some(d) => Some(d@),
            None => None,
        },
        data: match env.data {
            Some(s) => Some(JsonData::Str(s@)),
            None => None,
        },
    }
}

/// Whether a decoded envelope's payload is absent or a string — the
/// shapes a string-typed caller accepts.
pub open spec fn string_data_ok(ed: EnvelopeData) -> bool {
    match ed.data {
        None => true,
        Some(JsonData::Str(_)) => true,
        Some(_) => false,
    }
}

/// The string-typed envelope that `parsed` stands for, if the bytes
/// parsed, the envelope decoded, and its payload is absent or a string.
pub open spec fn spec_parsed_string_envelope(parsed: Option<JsonVal>) -> Option<EnvelopeData> {
    match parsed {
        None => None,
        Some(j) => match spec_envelope_of(jview(j)) {
            None => None,
            Some(ed) => if string_data_ok(ed) {
                Some(ed)
            } else {
                None
            },
        },
    }
}

/// Narrows a decoded envelope to a string payload.  Fails exactly when
/// data is present but not a string.
pub fn envelope_string_data(env: ApiResponse<JsonVal>) -> (r: Option<ApiResponse<String>>)
    ensures
        match r {
            Some(out) => env_str_view(out) == env_view(env),
            None => !string_data_ok(env_view(env)),
        },
{
    let data: Option<String> = match env.data {
        None => None,
        Some(JsonVal::Str(s)) => Some(s),
        Some(_) => {
            return None;
        },
    };
    Some(ApiResponse { success: env.success, error: env.error, detail: env.detail, data })
}

/// Parses raw bytes as a string-typed envelope.
fn decode_string_envelope(body: &[u8]) -> (r: Result<ApiResponse<String>, ApiError>)
    ensures
        match r {
            Ok(env) => spec_parsed_string_envelope(json_of(body@)) == Some(env_str_view(env)),
            Err(e) => e is SerdeError && spec_parsed_string_envelope(json_of(body@)) is None,
        },
{
    match decode_envelope_bytes(body) {
        Err(e) => Err(e),
        Ok(env) => match envelope_string_data(env) {
            Some(out) => Ok(out),
            None => Err(ApiError::SerdeError("envelope data is not a string".to_owned())),
        },
    }
}

/// Whether an HTTP status code is a redirection code.
pub open spec fn spec_is_redirection(status: u16) -> bool {
    300 <= status < 400
}

/// Normalizes a download-link reply from the raw pieces of an HTTP
/// response: the status code, the `Location` header, and the body.
///
/// When redirect behaviour was requested and the status is a
/// redirection, the `Location` text is the result, and a missing or
/// unreadable header is a redirect error.  In every other case the body
/// must hold a string-typed envelope; what a failure to parse it means
/// depends on whether redirect behaviour was requested.
pub fn normalize_download_link(
    redirect_requested: bool,
    status: u16,
    location: LocationHeader,
    body: &[u8],
) -> (r: Result<DownloadLinkResponse, ApiError>)
    ensures
        redirect_requested && spec_is_redirection(status) ==> match location {
            LocationHeader::Text(s) => r == Ok::<DownloadLinkResponse, ApiError>(
                DownloadLinkResponse::Redirect(s),
            ),
            LocationHeader::Missing => r matches Err(ApiError::RedirectError(m)) && m@
                == "missing Location header"@,
            LocationHeader::Unreadable => r matches Err(ApiError::RedirectError(m)) && m@
                == "unreadable Location header"@,
        },
        redirect_requested && !spec_is_redirection(status) ==> match spec_parsed_string_envelope(
            json_of(body@),
        ) {
            Some(ed) => r matches Ok(DownloadLinkResponse::Json(env)) && env_str_view(env) == ed,
            None => r == Err::<DownloadLinkResponse, ApiError>(ApiError::UnexpectedPayload),
        },
        !redirect_requested ==> match spec_parsed_string_envelope(json_of(body@)) {
            Some(ed) => r matches Ok(DownloadLinkResponse::Json(env)) && env_str_view(env) == ed,
            None => r matches Err(e) && e is SerdeError,
        },
{
    if redirect_requested && 300 <= status && status < 400 {
        match location {
            LocationHeader::Text(s) => Ok(DownloadLinkResponse::Redirect(s)),
            LocationHeader::Missing => Err(
                ApiError::RedirectError("missing Location header".to_owned()),
            ),
            LocationHeader::Unreadable => Err(
                ApiError::RedirectError("unreadable Location header".to_owned()),
            ),
        }
    } else if redirect_requested {
        match decode_string_envelope(body) {
            Ok(env) => Ok(DownloadLinkResponse::Json(env)),
            Err(_) => Err(ApiError::UnexpectedPayload),
        }
    } else {
        match decode_string_envelope(body) {
            Ok(env) => Ok(DownloadLinkResponse::Json(env)),
            Err(e) => Err(e),
        }
    }
}

/// Decodes a string-typed envelope from a single parsed JSON document;
/// this is the step of download-link normalization that follows the
/// parser, stated over the document itself.
pub fn string_envelope_from_json(j: &JsonVal) -> (r: Option<ApiResponse<String>>)
    ensures
        match r {
            Some(env) => spec_envelope_of(jview(*j)) == Some(env_str_view(env)),
            None => match spec_envelope_of(jview(*j)) {
                None => true,
                Some(ed) => !string_data_ok(ed),
            },
        },
{
    match envelope_from_json(j) {
        None => None,
        Some(env) => envelope_string_data(env),
    }
}

} // verus!
