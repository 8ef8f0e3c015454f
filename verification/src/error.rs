//! Error codes and error values of the service's wire protocol, and the
//! library's own error type.
//!
//! The service reports an error as an untyped JSON value: a string that
//! may name a structured code, a bare boolean, or free text.  Decoding
//! tries the structured code first, then the boolean, then the text, and
//! fails only when none match.

use vstd::prelude::*;
use crate::json::{JsonData, JsonVal, jview};
use crate::strutil::str_eq;

verus! {

/// All structured error codes the service returns.
#[derive(Debug, Clone, Copy, PartialEq, Eq, Structural)]
pub enum ApiErrorCode {
    /// Could not access internal database information.
    DatabaseError,
    /// The reason for the error is unknown.
    UnknownError,
    /// There are no provided credentials.
    NoAuth,
    /// The provided token is invalid.
    BadToken,
    /// There was an error verifying the given authentication.
    AuthError,
    /// The provided option is invalid.
    InvalidOption,
    /// The server tried redirecting, but it faulted.
    RedirectError,
    /// The OAuth token was not accepted by the provider.
    OauthVerificationError,
    /// The endpoint does not exist.
    EndpointNotFound,
    /// The queried item cannot be found.
    ItemNotFound,
    /// The feature is restricted to higher plans.
    PlanRestrictedFeature,
    /// The item already exists.
    DuplicateItem,
    /// The RSS feed is invalid or not well-formed XML.
    BozoRssFeed,
    /// There was an error with the payment provider.
    SellixError,
    /// The client sent too much data.
    TooMuchData,
    /// The download is oversized for the user's plan.
    DownloadTooLarge,
    /// A required option is missing.
    MissingRequiredOption,
    /// The client sent too many options.
    TooManyOptions,
    /// The torrent sent is not a valid torrent.
    BozoTorrent,
    /// No download servers are available.
    NoServersAvailableError,
    /// The user hit the monthly limit.
    MonthlyLimit,
    /// The user is on download cooldown.
    CooldownLimit,
    /// The user hit the active download limit.
    ActiveLimit,
    /// Error interacting with the download on the download server.
    DownloadServerError,
    /// The NZB sent is not a valid NZB file.
    BozoNzb,
    /// Error while searching.
    SearchError,
    /// The request came from the wrong device.
    InvalidDevice,
    /// The request parameters do not allow the request to complete.
    DiffIssue,
    /// The link is inaccessible or has no online files.
    LinkOffline,
    /// The vendor account has been disabled.
    VendorDisabled,
    /// The regex entered is invalid.
    BozoRegex,
    /// The confirmation code is invalid.
    BadConfirmation,
    /// The confirmation code has expired.
    ConfirmationExpired,
}

/// The wire string of a structured error code.
pub open spec fn code_str(c: ApiErrorCode) -> Seq<char> {
    match c {
        ApiErrorCode::DatabaseError => "DATABASE_ERROR"@,
        ApiErrorCode::UnknownError => "UNKNOWN_ERROR"@,
        ApiErrorCode::NoAuth => "NO_AUTH"@,
        ApiErrorCode::BadToken => "BAD_TOKEN"@,
        ApiErrorCode::AuthError => "AUTH_ERROR"@,
        ApiErrorCode::InvalidOption => "INVALID_OPTION"@,
        ApiErrorCode::RedirectError => "REDIRECT_ERROR"@,
        ApiErrorCode::OauthVerificationError => "OAUTH_VERIFICATION_ERROR"@,
        ApiErrorCode::EndpointNotFound => "ENDPOINT_NOT_FOUND"@,
        ApiErrorCode::ItemNotFound => "ITEM_NOT_FOUND"@,
        ApiErrorCode::PlanRestrictedFeature => "PLAN_RESTRICTED_FEATURE"@,
        ApiErrorCode::DuplicateItem => "DUPLICATE_ITEM"@,
        ApiErrorCode::BozoRssFeed => "BOZO_RSS_FEED"@,
        ApiErrorCode::SellixError => "SELLIX_ERROR"@,
        ApiErrorCode::TooMuchData => "TOO_MUCH_DATA"@,
        ApiErrorCode::DownloadTooLarge => "DOWNLOAD_TOO_LARGE"@,
        ApiErrorCode::MissingRequiredOption => "MISSING_REQUIRED_OPTION"@,
        ApiErrorCode::TooManyOptions => "TOO_MANY_OPTIONS"@,
        ApiErrorCode::BozoTorrent => "BOZO_TORRENT"@,
        ApiErrorCode::NoServersAvailableError => "NO_SERVERS_AVAILABLE_ERROR"@,
        ApiErrorCode::MonthlyLimit => "MONTHLY_LIMIT"@,
        ApiErrorCode::CooldownLimit => "COOLDOWN_LIMIT"@,
        ApiErrorCode::ActiveLimit => "ACTIVE_LIMIT"@,
        ApiErrorCode::DownloadServerError => "DOWNLOAD_SERVER_ERROR"@,
        ApiErrorCode::BozoNzb => "BOZO_NZB"@,
        ApiErrorCode::SearchError => "SEARCH_ERROR"@,
        ApiErrorCode::InvalidDevice => "INVALID_DEVICE"@,
        ApiErrorCode::DiffIssue => "DIFF_ISSUE"@,
        ApiErrorCode::LinkOffline => "LINK_OFFLINE"@,
        ApiErrorCode::VendorDisabled => "VENDOR_DISABLED"@,
        ApiErrorCode::BozoRegex => "BOZO_REGEX"@,
        ApiErrorCode::BadConfirmation => "BAD_CONFIRMATION"@,
        ApiErrorCode::ConfirmationExpired => "CONFIRMATION_EXPIRED"@,
    }
}

/// The wire string of a structured error code.
pub fn as_code_str(c: ApiErrorCode) -> (r: &'static str)
    ensures
        r@ == code_str(c),
{
    match c {
        ApiErrorCode::DatabaseError => "DATABASE_ERROR",
        ApiErrorCode::UnknownError => "UNKNOWN_ERROR",
        ApiErrorCode::NoAuth => "NO_AUTH",
        ApiErrorCode::BadToken => "BAD_TOKEN",
        ApiErrorCode::AuthError => "AUTH_ERROR",
        ApiErrorCode::InvalidOption => "INVALID_OPTION",
        ApiErrorCode::RedirectError => "REDIRECT_ERROR",
        ApiErrorCode::OauthVerificationError => "OAUTH_VERIFICATION_ERROR",
        ApiErrorCode::EndpointNotFound => "ENDPOINT_NOT_FOUND",
        ApiErrorCode::ItemNotFound => "ITEM_NOT_FOUND",
        ApiErrorCode::PlanRestrictedFeature => "PLAN_RESTRICTED_FEATURE",
        ApiErrorCode::DuplicateItem => "DUPLICATE_ITEM",
        ApiErrorCode::BozoRssFeed => "BOZO_RSS_FEED",
        ApiErrorCode::SellixError => "SELLIX_ERROR",
        ApiErrorCode::TooMuchData => "TOO_MUCH_DATA",
        ApiErrorCode::DownloadTooLarge => "DOWNLOAD_TOO_LARGE",
        ApiErrorCode::MissingRequiredOption => "MISSING_REQUIRED_OPTION",
        ApiErrorCode::TooManyOptions => "TOO_MANY_OPTIONS",
        ApiErrorCode::BozoTorrent => "BOZO_TORRENT",
        ApiErrorCode::NoServersAvailableError => "NO_SERVERS_AVAILABLE_ERROR",
        ApiErrorCode::MonthlyLimit => "MONTHLY_LIMIT",
        ApiErrorCode::CooldownLimit => "COOLDOWN_LIMIT",
        ApiErrorCode::ActiveLimit => "ACTIVE_LIMIT",
        ApiErrorCode::DownloadServerError => "DOWNLOAD_SERVER_ERROR",
        ApiErrorCode::BozoNzb => "BOZO_NZB",
        ApiErrorCode::SearchError => "SEARCH_ERROR",
        ApiErrorCode::InvalidDevice => "INVALID_DEVICE",
        ApiErrorCode::DiffIssue => "DIFF_ISSUE",
        ApiErrorCode::LinkOffline => "LINK_OFFLINE",
        ApiErrorCode::VendorDisabled => "VENDOR_DISABLED",
        ApiErrorCode::BozoRegex => "BOZO_REGEX",
        ApiErrorCode::BadConfirmation => "BAD_CONFIRMATION",
        ApiErrorCode::ConfirmationExpired => "CONFIRMATION_EXPIRED",
    }
}

/// The structured code whose wire string is `s`, if any, tried in
/// declaration order.
pub open spec fn spec_parse_code(s: Seq<char>) -> Option<ApiErrorCode> {
    if s == "DATABASE_ERROR"@ {
        Some(ApiErrorCode::DatabaseError)
    } else if s == "UNKNOWN_ERROR"@ {
        Some(ApiErrorCode::UnknownError)
    } else if s == "NO_AUTH"@ {
        Some(ApiErrorCode::NoAuth)
    } else if s == "BAD_TOKEN"@ {
        Some(ApiErrorCode::BadToken)
    } else if s == "AUTH_ERROR"@ {
        Some(ApiErrorCode::AuthError)
    } else if s == "INVALID_OPTION"@ {
        Some(ApiErrorCode::InvalidOption)
    } else if s == "REDIRECT_ERROR"@ {
        Some(ApiErrorCode::RedirectError)
    } else if s == "OAUTH_VERIFICATION_ERROR"@ {
        Some(ApiErrorCode::OauthVerificationError)
    } else if s == "ENDPOINT_NOT_FOUND"@ {
        Some(ApiErrorCode::EndpointNotFound)
    } else if s == "ITEM_NOT_FOUND"@ {
        Some(ApiErrorCode::ItemNotFound)
    } else if s == "PLAN_RESTRICTED_FEATURE"@ {
        Some(ApiErrorCode::PlanRestrictedFeature)
    } else if s == "DUPLICATE_ITEM"@ {
        Some(ApiErrorCode::DuplicateItem)
    } else if s == "BOZO_RSS_FEED"@ {
        Some(ApiErrorCode::BozoRssFeed)
    } else if s == "SELLIX_ERROR"@ {
        Some(ApiErrorCode::SellixError)
    } else if s == "TOO_MUCH_DATA"@ {
        Some(ApiErrorCode::TooMuchData)
    } else if s == "DOWNLOAD_TOO_LARGE"@ {
        Some(ApiErrorCode::DownloadTooLarge)
    } else if s == "MISSING_REQUIRED_OPTION"@ {
        Some(ApiErrorCode::MissingRequiredOption)
    } else if s == "TOO_MANY_OPTIONS"@ {
        Some(ApiErrorCode::TooManyOptions)
    } else if s == "BOZO_TORRENT"@ {
        Some(ApiErrorCode::BozoTorrent)
    } else if s == "NO_SERVERS_AVAILABLE_ERROR"@ {
        Some(ApiErrorCode::NoServersAvailableError)
    } else if s == "MONTHLY_LIMIT"@ {
        Some(ApiErrorCode::MonthlyLimit)
    } else if s == "COOLDOWN_LIMIT"@ {
        Some(ApiErrorCode::CooldownLimit)
    } else if s == "ACTIVE_LIMIT"@ {
        Some(ApiErrorCode::ActiveLimit)
    } else if s == "DOWNLOAD_SERVER_ERROR"@ {
        Some(ApiErrorCode::DownloadServerError)
    } else if s == "BOZO_NZB"@ {
        Some(ApiErrorCode::BozoNzb)
    } else if s == "SEARCH_ERROR"@ {
        Some(ApiErrorCode::SearchError)
    } else if s == "INVALID_DEVICE"@ {
        Some(ApiErrorCode::InvalidDevice)
    } else if s == "DIFF_ISSUE"@ {
        Some(ApiErrorCode::DiffIssue)
    } else if s == "LINK_OFFLINE"@ {
        Some(ApiErrorCode::LinkOffline)
    } else if s == "VENDOR_DISABLED"@ {
        Some(ApiErrorCode::VendorDisabled)
    } else if s == "BOZO_REGEX"@ {
        Some(ApiErrorCode::BozoRegex)
    } else if s == "BAD_CONFIRMATION"@ {
        Some(ApiErrorCode::BadConfirmation)
    } else if s == "CONFIRMATION_EXPIRED"@ {
        Some(ApiErrorCode::ConfirmationExpired)
    } else {
        None
    }
}

/// Whether `s` is the wire string of some structured code.
pub open spec fn is_known_code(s: Seq<char>) -> bool {
    spec_parse_code(s) is Some
}

/// Parses the wire string of a structured error code.
pub fn parse_code(s: &str) -> (r: Option<ApiErrorCode>)
    ensures
        r == spec_parse_code(s@),
{
    if str_eq(s, "DATABASE_ERROR") {
        Some(ApiErrorCode::DatabaseError)
    } else if str_eq(s, "UNKNOWN_ERROR") {
        Some(ApiErrorCode::UnknownError)
    } else if str_eq(s, "NO_AUTH") {
        Some(ApiErrorCode::NoAuth)
    } else if str_eq(s, "BAD_TOKEN") {
        Some(ApiErrorCode::BadToken)
    } else if str_eq(s, "AUTH_ERROR") {
        Some(ApiErrorCode::AuthError)
    } else if str_eq(s, "INVALID_OPTION") {
        Some(ApiErrorCode::InvalidOption)
    } else if str_eq(s, "REDIRECT_ERROR") {
        Some(ApiErrorCode::RedirectError)
    } else if str_eq(s, "OAUTH_VERIFICATION_ERROR") {
        Some(ApiErrorCode::OauthVerificationError)
    } else if str_eq(s, "ENDPOINT_NOT_FOUND") {
        Some(ApiErrorCode::EndpointNotFound)
    } else if str_eq(s, "ITEM_NOT_FOUND") {
        Some(ApiErrorCode::ItemNotFound)
    } else if str_eq(s, "PLAN_RESTRICTED_FEATURE") {
        Some(ApiErrorCode::PlanRestrictedFeature)
    } else if str_eq(s, "DUPLICATE_ITEM") {
        Some(ApiErrorCode::DuplicateItem)
    } else if str_eq(s, "BOZO_RSS_FEED") {
        Some(ApiErrorCode::BozoRssFeed)
    } else if str_eq(s, "SELLIX_ERROR") {
        Some(ApiErrorCode::SellixError)
    } else if str_eq(s, "TOO_MUCH_DATA") {
        Some(ApiErrorCode::TooMuchData)
    } else if str_eq(s, "DOWNLOAD_TOO_LARGE") {
        Some(ApiErrorCode::DownloadTooLarge)
    } else if str_eq(s, "MISSING_REQUIRED_OPTION") {
        Some(ApiErrorCode::MissingRequiredOption)
    } else if str_eq(s, "TOO_MANY_OPTIONS") {
        Some(ApiErrorCode::TooManyOptions)
    } else if str_eq(s, "BOZO_TORRENT") {
        Some(ApiErrorCode::BozoTorrent)
    } else if str_eq(s, "NO_SERVERS_AVAILABLE_ERROR") {
        Some(ApiErrorCode::NoServersAvailableError)
    } else if str_eq(s, "MONTHLY_LIMIT") {
        Some(ApiErrorCode::MonthlyLimit)
    } else if str_eq(s, "COOLDOWN_LIMIT") {
        Some(ApiErrorCode::CooldownLimit)
    } else if str_eq(s, "ACTIVE_LIMIT") {
        Some(ApiErrorCode::ActiveLimit)
    } else if str_eq(s, "DOWNLOAD_SERVER_ERROR") {
        Some(ApiErrorCode::DownloadServerError)
    } else if str_eq(s, "BOZO_NZB") {
        Some(ApiErrorCode::BozoNzb)
    } else if str_eq(s, "SEARCH_ERROR") {
        Some(ApiErrorCode::SearchError)
    } else if str_eq(s, "INVALID_DEVICE") {
        Some(ApiErrorCode::InvalidDevice)
    } else if str_eq(s, "DIFF_ISSUE") {
        Some(ApiErrorCode::DiffIssue)
    } else if str_eq(s, "LINK_OFFLINE") {
        Some(ApiErrorCode::LinkOffline)
    } else if str_eq(s, "VENDOR_DISABLED") {
        Some(ApiErrorCode::VendorDisabled)
    } else if str_eq(s, "BOZO_REGEX") {
        Some(ApiErrorCode::BozoRegex)
    } else if str_eq(s, "BAD_CONFIRMATION") {
        Some(ApiErrorCode::BadConfirmation)
    } else if str_eq(s, "CONFIRMATION_EXPIRED") {
        Some(ApiErrorCode::ConfirmationExpired)
    } else {
        None
    }
}

/// The error payload of an envelope: a structured code, a bare boolean,
/// or free text.
#[derive(Debug, Clone, PartialEq, Eq)]
pub enum ErrorValue {
    Code(ApiErrorCode),
    Bool(bool),
    Message(String),
}

/// The mathematical value of an [`ErrorValue`].
pub enum ErrorValueData {
    Code(ApiErrorCode),
    Bool(bool),
    Message(Seq<char>),
}

/// The mathematical value of an [`ErrorValue`].
pub open spec fn ev_view(e: ErrorValue) -> ErrorValueData {
    match e {
        ErrorValue::Code(c) => ErrorValueData::Code(c),
        ErrorValue::Bool(b) => ErrorValueData::Bool(b),
        ErrorValue::Message(m) => ErrorValueData::Message(m@),
    }
}

/// Decoding an error value from a JSON document: a string naming a
/// structured code decodes as that code; any other string decodes as
/// free text; a boolean decodes as itself; nothing else decodes.
pub open spec fn spec_ev_from_json(d: JsonData) -> Option<ErrorValueData> {
    match d {
        JsonData::Str(s) => match spec_parse_code(s) {
            Some(c) => Some(ErrorValueData::Code(c)),
            None => Some(ErrorValueData::Message(s)),
        },
        JsonData::Bool(b) => Some(ErrorValueData::Bool(b)),
        _ => None,
    }
}

/// Encoding an error value as a JSON document.
pub open spec fn spec_ev_to_json(e: ErrorValueData) -> JsonData {
    match e {
        ErrorValueData::Code(c) => JsonData::Str(code_str(c)),
        ErrorValueData::Bool(b) => JsonData::Bool(b),
        ErrorValueData::Message(m) => JsonData::Str(m),
    }
}

impl ErrorValue {
    /// Decodes an error value from a JSON document, trying the
    /// structured code first, then the boolean, then the free text.
    pub fn from_json(j: &JsonVal) -> (r: Option<ErrorValue>)
        ensures
            match r {
                Some(e) => spec_ev_from_json(jview(*j)) == Some(ev_view(e)),
                None => spec_ev_from_json(jview(*j)) is None,
            },
    {
        match j {
            JsonVal::Str(s) => match parse_code(s.as_str()) {
                Some(c) => Some(ErrorValue::Code(c)),
                None => Some(ErrorValue::Message(s.clone())),
            },
            JsonVal::Bool(b) => Some(ErrorValue::Bool(*b)),
            _ => None,
        }
    }

    /// Encodes this error value as a JSON document.
    pub fn to_json(&self) -> (r: JsonVal)
        ensures
            jview(r) == spec_ev_to_json(ev_view(*self)),
    {
        match self {
            ErrorValue::Code(c) => JsonVal::Str(as_code_str(*c).to_owned()),
            ErrorValue::Bool(b) => JsonVal::Bool(*b),
            ErrorValue::Message(m) => JsonVal::Str(m.clone()),
        }
    }
}

/// Parsing the wire string of a code yields that code back.
pub proof fn lemma_parse_code_of_code_str(c: ApiErrorCode)
    ensures
        spec_parse_code(code_str(c)) == Some(c),
{
    reveal_strlit("DATABASE_ERROR");
    reveal_strlit("UNKNOWN_ERROR");
    reveal_strlit("NO_AUTH");
    reveal_strlit("BAD_TOKEN");
    reveal_strlit("AUTH_ERROR");
    reveal_strlit("INVALID_OPTION");
    reveal_strlit("REDIRECT_ERROR");
    reveal_strlit("OAUTH_VERIFICATION_ERROR");
    reveal_strlit("ENDPOINT_NOT_FOUND");
    reveal_strlit("ITEM_NOT_FOUND");
    reveal_strlit("PLAN_RESTRICTED_FEATURE");
    reveal_strlit("DUPLICATE_ITEM");
    reveal_strlit("BOZO_RSS_FEED");
    reveal_strlit("SELLIX_ERROR");
    reveal_strlit("TOO_MUCH_DATA");
    reveal_strlit("DOWNLOAD_TOO_LARGE");
    reveal_strlit("MISSING_REQUIRED_OPTION");
    reveal_strlit("TOO_MANY_OPTIONS");
    reveal_strlit("BOZO_TORRENT");
    reveal_strlit("NO_SERVERS_AVAILABLE_ERROR");
    reveal_strlit("MONTHLY_LIMIT");
    reveal_strlit("COOLDOWN_LIMIT");
    reveal_strlit("ACTIVE_LIMIT");
    reveal_strlit("DOWNLOAD_SERVER_ERROR");
    reveal_strlit("BOZO_NZB");
    reveal_strlit("SEARCH_ERROR");
    reveal_strlit("INVALID_DEVICE");
    reveal_strlit("DIFF_ISSUE");
    reveal_strlit("LINK_OFFLINE");
    reveal_strlit("VENDOR_DISABLED");
    reveal_strlit("BOZO_REGEX");
    reveal_strlit("BAD_CONFIRMATION");
    reveal_strlit("CONFIRMATION_EXPIRED");
    // Length and leading-character facts tell each wire string apart
    // from every earlier one in the parsing order.
    assert("DATABASE_ERROR"@.len() == 14);
    assert("DATABASE_ERROR"@[0] == 'D');
    assert("DATABASE_ERROR"@[1] == 'A');
    assert("UNKNOWN_ERROR"@.len() == 13);
    assert("UNKNOWN_ERROR"@[0] == 'U');
    assert("NO_AUTH"@.len() == 7);
    assert("NO_AUTH"@[0] == 'N');
    assert("BAD_TOKEN"@.len() == 9);
    assert("BAD_TOKEN"@[0] == 'B');
    assert("AUTH_ERROR"@.len() == 10);
    assert("AUTH_ERROR"@[0] == 'A');
    assert("INVALID_OPTION"@.len() == 14);
    assert("INVALID_OPTION"@[0] == 'I');
    assert("INVALID_OPTION"@[1] == 'N');
    assert("INVALID_OPTION"@[8] == 'O');
    assert("REDIRECT_ERROR"@.len() == 14);
    assert("REDIRECT_ERROR"@[0] == 'R');
    assert("OAUTH_VERIFICATION_ERROR"@.len() == 24);
    assert("OAUTH_VERIFICATION_ERROR"@[0] == 'O');
    assert("ENDPOINT_NOT_FOUND"@.len() == 18);
    assert("ENDPOINT_NOT_FOUND"@[0] == 'E');
    assert("ITEM_NOT_FOUND"@.len() == 14);
    assert("ITEM_NOT_FOUND"@[0] == 'I');
    assert("ITEM_NOT_FOUND"@[1] == 'T');
    assert("PLAN_RESTRICTED_FEATURE"@.len() == 23);
    assert("PLAN_RESTRICTED_FEATURE"@[0] == 'P');
    assert("DUPLICATE_ITEM"@.len() == 14);
    assert("DUPLICATE_ITEM"@[0] == 'D');
    assert("DUPLICATE_ITEM"@[1] == 'U');
    assert("BOZO_RSS_FEED"@.len() == 13);
    assert("BOZO_RSS_FEED"@[0] == 'B');
    assert("SELLIX_ERROR"@.len() == 12);
    assert("SELLIX_ERROR"@[0] == 'S');
    assert("SELLIX_ERROR"@[2] == 'L');
    assert("TOO_MUCH_DATA"@.len() == 13);
    assert("TOO_MUCH_DATA"@[0] == 'T');
    assert("DOWNLOAD_TOO_LARGE"@.len() == 18);
    assert("DOWNLOAD_TOO_LARGE"@[0] == 'D');
    assert("MISSING_REQUIRED_OPTION"@.len() == 23);
    assert("MISSING_REQUIRED_OPTION"@[0] == 'M');
    assert("TOO_MANY_OPTIONS"@.len() == 16);
    assert("TOO_MANY_OPTIONS"@[0] == 'T');
    assert("BOZO_TORRENT"@.len() == 12);
    assert("BOZO_TORRENT"@[0] == 'B');
    assert("NO_SERVERS_AVAILABLE_ERROR"@.len() == 26);
    assert("NO_SERVERS_AVAILABLE_ERROR"@[0] == 'N');
    assert("MONTHLY_LIMIT"@.len() == 13);
    assert("MONTHLY_LIMIT"@[0] == 'M');
    assert("COOLDOWN_LIMIT"@.len() == 14);
    assert("COOLDOWN_LIMIT"@[0] == 'C');
    assert("ACTIVE_LIMIT"@.len() == 12);
    assert("ACTIVE_LIMIT"@[0] == 'A');
    assert("DOWNLOAD_SERVER_ERROR"@.len() == 21);
    assert("DOWNLOAD_SERVER_ERROR"@[0] == 'D');
    assert("BOZO_NZB"@.len() == 8);
    assert("BOZO_NZB"@[0] == 'B');
    assert("SEARCH_ERROR"@.len() == 12);
    assert("SEARCH_ERROR"@[0] == 'S');
    assert("SEARCH_ERROR"@[2] == 'A');
    assert("INVALID_DEVICE"@.len() == 14);
    assert("INVALID_DEVICE"@[0] == 'I');
    assert("INVALID_DEVICE"@[1] == 'N');
    assert("INVALID_DEVICE"@[8] == 'D');
    assert("DIFF_ISSUE"@.len() == 10);
    assert("DIFF_ISSUE"@[0] == 'D');
    assert("LINK_OFFLINE"@.len() == 12);
    assert("LINK_OFFLINE"@[0] == 'L');
    assert("VENDOR_DISABLED"@.len() == 15);
    assert("VENDOR_DISABLED"@[0] == 'V');
    assert("BOZO_REGEX"@.len() == 10);
    assert("BOZO_REGEX"@[0] == 'B');
    assert("BAD_CONFIRMATION"@.len() == 16);
    assert("BAD_CONFIRMATION"@[0] == 'B');
    assert("CONFIRMATION_EXPIRED"@.len() == 20);
    assert("CONFIRMATION_EXPIRED"@[0] == 'C');
}

/// An error value encoded to JSON decodes back to the same value; the
/// one exception is free text that happens to spell a structured code,
/// which decodes as that code.
pub proof fn lemma_error_value_round_trip(e: ErrorValueData)
    requires
        e matches ErrorValueData::Message(m) ==> !is_known_code(m),
    ensures
        spec_ev_from_json(spec_ev_to_json(e)) == Some(e),
{
    match e {
        ErrorValueData::Code(c) => {
            lemma_parse_code_of_code_str(c);
        },
        ErrorValueData::Bool(_) => {},
        ErrorValueData::Message(_) => {},
    }
}

/// A string naming a structured code always decodes as that code, never
/// as free text: the structured attempt comes before the text attempt.
pub proof fn lemma_code_tried_before_text(s: Seq<char>)
    requires
        is_known_code(s),
    ensures
        spec_ev_from_json(JsonData::Str(s)) == Some(
            ErrorValueData::Code(spec_parse_code(s)->Some_0),
        ),
{
}

/// The library's error type: transport failures, malformed JSON,
/// explicit server-side failures, and envelopes whose shape did not
/// match what the caller expected.
#[derive(Debug, Clone, PartialEq, Eq)]
pub enum ApiError {
    /// The HTTP call itself failed.
    Transport(String),
    /// A response that should have been JSON did not parse.
    SerdeError(String),
    /// The server reported `success = false` with this error payload.
    Failure(ErrorValue),
    /// The envelope was well-formed but its `success`/`error`/`data`
    /// combination did not match what the caller expected.
    UnexpectedPayload,
    /// A redirect was expected but its `Location` header was missing or
    /// unreadable.
    RedirectError(String),
    /// Any other failure, described in text.
    Custom(String),
}

} // verus!
