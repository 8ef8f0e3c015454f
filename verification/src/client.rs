//! The plain-value side of the transport: base URL, bearer token,
//! request headers, and the dispatcher's response-parsing step.
//!
//! The HTTP client itself lives outside the library; it is handed the
//! method, URL and header pairs built here, and hands back the status,
//! headers and body bytes that the parsing step consumes.

use vstd::prelude::*;
use vstd::string::StringExecFns;
use vstd::utf8::encode_utf8;
use crate::api::{ApiResponse, decode_envelope_bytes, env_view, spec_envelope_of};
use crate::error::ApiError;
use crate::json::{JsonVal, json_of, jview};
use crate::strutil::{spec_starts_with, str_starts_with};

verus! {

/// The HTTP method of an endpoint.
#[derive(Debug, Clone, Copy, PartialEq, Eq, Structural)]
pub enum HttpMethod {
    Get,
    Post,
}

/// The service client's own state: the base URL every path is appended
/// to, and the bearer token attached to every request.  Both are fixed
/// at construction.
#[derive(Debug, PartialEq, Eq)]
pub struct TorboxClient {
    pub token: String,
    pub base_url: String,
}

impl TorboxClient {
    /// A client for the service's production URL, with the given token.
    pub fn new(token: String) -> (r: TorboxClient)
        ensures
            r.token == token,
            r.base_url@ == "https://api.torbox.app/v1"@,
    {
        TorboxClient { token, base_url: "https://api.torbox.app/v1".to_owned() }
    }

    /// The bearer token this client was built with.
    pub fn token(&self) -> (r: &str)
        ensures
            r@ == self.token@,
    {
        self.token.as_str()
    }

    /// The same client against another base URL.
    pub fn with_base_url(&self, base_url: String) -> (r: TorboxClient)
        ensures
            r.token == self.token,
            r.base_url == base_url,
    {
        TorboxClient { token: self.token.clone(), base_url }
    }

    /// The full URL of a path: the base URL, a slash, and the path.
    pub fn url_for(&self, path: &str) -> (r: String)
        ensures
            r@ == self.base_url@ + "/"@ + path@,
    {
        self.base_url.clone().concat("/").concat(path)
    }

    /// The header pairs attached to every request: the accepted content
    /// type and the bearer authorization.
    pub fn header_pairs(&self) -> (r: Vec<(String, String)>)
        ensures
            r@.len() == 2,
            r@[0].0@ == "Accept"@ && r@[0].1@ == "application/json"@,
            r@[1].0@ == "Authorization"@ && r@[1].1@ == "Bearer "@ + self.token@,
    {
        let mut out: Vec<(String, String)> = Vec::new();
        out.push(("Accept".to_owned(), "application/json".to_owned()));
        out.push(("Authorization".to_owned(), "Bearer ".to_owned().concat(self.token.as_str())));
        out
    }
}

/// Request headers as plain pairs, for transports that take them so.
#[derive(Debug, Clone, PartialEq, Eq)]
pub struct ApiHeadersUreq {
    pub headers: Vec<(String, String)>,
}

impl ApiHeadersUreq {
    /// The three standard headers: content type, accepted type, and the
    /// bearer authorization for `token`.
    pub fn new(token: &str) -> (r: ApiHeadersUreq)
        ensures
            r.headers@.len() == 3,
            r.headers@[0].0@ == "Content-Type"@ && r.headers@[0].1@ == "application/json"@,
            r.headers@[1].0@ == "Accept"@ && r.headers@[1].1@ == "application/json"@,
            r.headers@[2].0@ == "Authorization"@ && r.headers@[2].1@ == "Bearer "@ + token@,
    {
        let mut headers: Vec<(String, String)> = Vec::new();
        headers.push(("Content-Type".to_owned(), "application/json".to_owned()));
        headers.push(("Accept".to_owned(), "application/json".to_owned()));
        headers.push(("Authorization".to_owned(), "Bearer ".to_owned().concat(token)));
        ApiHeadersUreq { headers }
    }
}

/// Whether a `Content-Type` header announces a JSON body.
pub fn content_type_is_json(content_type: &str) -> (r: bool)
    ensures
        r == spec_starts_with(content_type@, "application/json"@),
{
    str_starts_with(content_type, "application/json")
}

/// A response body after the dispatcher's content-type branch: a decoded
/// JSON envelope, or the raw bytes of a non-JSON reply.
#[derive(Debug, PartialEq, Eq)]
pub enum ResponseBody {
    Envelope(ApiResponse<JsonVal>),
    Raw(Vec<u8>),
}

/// The dispatcher's parsing step.  A body whose content type announces
/// JSON must decode as an envelope; any other body passes through as
/// raw bytes, byte for byte.
pub fn parse_response(content_type: &str, body: Vec<u8>) -> (r: Result<ResponseBody, ApiError>)
    ensures
        spec_starts_with(content_type@, "application/json"@) ==> match r {
            Ok(rb) => rb matches ResponseBody::Envelope(env) && json_of(body@) matches Some(j)
                && spec_envelope_of(jview(j)) == Some(env_view(env)),
            Err(e) => {
                &&& e is SerdeError
                &&& match json_of(body@) {
                    None => true,
                    Some(j) => spec_envelope_of(jview(j)) is None,
                }
            },
        },
        !spec_starts_with(content_type@, "application/json"@) ==> r == Ok::<
            ResponseBody,
            ApiError,
        >(ResponseBody::Raw(body)),
{
    if content_type_is_json(content_type) {
        match decode_envelope_bytes(body.as_slice()) {
            Ok(env) => Ok(ResponseBody::Envelope(env)),
            Err(e) => Err(e),
        }
    } else {
        Ok(ResponseBody::Raw(body))
    }
}

/// Relies on `String::from_utf8`: yields the string whose UTF-8
/// encoding is exactly the given bytes, or `None` when no string
/// encodes to them.
#[verifier::external_body]
fn utf8_decode(bytes: Vec<u8>) -> (r: Option<String>)
    ensures
        r matches Some(s) ==> encode_utf8(s@) == bytes@,
        r is None ==> !(exists|t: Seq<char>| encode_utf8(t) == bytes@),
{
    String::from_utf8(bytes).ok()
}

/// Reads a raw response body as text, as string-typed endpoints do.
/// Bytes that are not valid UTF-8 are reported in the catch-all error
/// kind.
pub fn body_as_string(bytes: Vec<u8>) -> (r: Result<String, ApiError>)
    ensures
        match r {
            Ok(s) => encode_utf8(s@) == bytes@,
            Err(e) => e is Custom && !(exists|t: Seq<char>| encode_utf8(t) == bytes@),
        },
{
    match utf8_decode(bytes) {
        Some(s) => Ok(s),
        None => Err(ApiError::Custom("response body is not valid UTF-8".to_owned())),
    }
}

} // verus!
