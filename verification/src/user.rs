//! User-account endpoints.

use vstd::prelude::*;
use crate::client::HttpMethod;
use crate::forms::{FieldValueData, FormPart, parts_view};

verus! {

/// The query of the user-data endpoint.
#[derive(Debug, Clone, Copy, PartialEq, Eq, Structural)]
pub struct UserDataQuery {
    /// Whether the reply should include the user's settings.
    pub settings: bool,
}

impl UserDataQuery {
    /// The query pairs this request serializes to.
    pub fn to_query_parts(&self) -> (r: Vec<FormPart>)
        ensures
            parts_view(r@) =~= seq![("settings"@, FieldValueData::Flag(self.settings))],
    {
        let mut parts: Vec<FormPart> = Vec::new();
        parts.push(FormPart::flag("settings", self.settings));
        parts
    }
}

/// A session token, as the web application stores it.
#[derive(Debug, Clone, PartialEq, Eq)]
pub struct SessionToken {
    /// The token text.
    pub token: String,
    /// When the token expires, as a timestamp.
    pub expires_at: u64,
}

/// The body of a token-refresh request.
#[derive(Debug, Clone, PartialEq, Eq)]
pub struct RefreshApiTokenBody {
    /// The session token of a logged-in account.
    pub session_token: SessionToken,
}

/// The user-data endpoint.
pub struct GetUserDataEp;

impl GetUserDataEp {
    /// The path of this endpoint.
    pub fn path() -> (r: &'static str)
        ensures
            r@ == "api/user/me"@,
    {
        "api/user/me"
    }

    /// The HTTP method of this endpoint.
    pub fn method() -> (r: HttpMethod)
        ensures
            r == HttpMethod::Get,
    {
        HttpMethod::Get
    }
}

/// The confirmation-code endpoint.
pub struct GetConfirmationCodeEp;

impl GetConfirmationCodeEp {
    /// The path of this endpoint.
    pub fn path() -> (r: &'static str)
        ensures
            r@ == "api/user/getconfirmation"@,
    {
        "api/user/getconfirmation"
    }

    /// The HTTP method of this endpoint.
    pub fn method() -> (r: HttpMethod)
        ensures
            r == HttpMethod::Get,
    {
        HttpMethod::Get
    }
}

/// The add-referral endpoint.
pub struct AddReferalEp;

impl AddReferalEp {
    /// The path of this endpoint.
    pub fn path() -> (r: &'static str)
        ensures
            r@ == "api/user/addreferral"@,
    {
        "api/user/addreferral"
    }

    /// The HTTP method of this endpoint.
    pub fn method() -> (r: HttpMethod)
        ensures
            r == HttpMethod::Post,
    {
        HttpMethod::Post
    }
}

/// The token-refresh endpoint.
pub struct RefreshApiToken;

impl RefreshApiToken {
    /// The path of this endpoint.
    pub fn path() -> (r: &'static str)
        ensures
            r@ == "api/user/refreshtoken"@,
    {
        "api/user/refreshtoken"
    }

    /// The HTTP method of this endpoint.
    pub fn method() -> (r: HttpMethod)
        ensures
            r == HttpMethod::Post,
    {
        HttpMethod::Post
    }
}

} // verus!
