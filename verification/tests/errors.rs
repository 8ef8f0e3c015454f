//! Error codes and error values: wire strings, ordered decoding, and
//! round trips.

use torbox::error::{ApiErrorCode, ErrorValue, as_code_str, parse_code};
use torbox::json::JsonVal;

#[test]
fn code_strings_round_trip() {
    let codes = [
        ApiErrorCode::DatabaseError,
        ApiErrorCode::UnknownError,
        ApiErrorCode::NoAuth,
        ApiErrorCode::BadToken,
        ApiErrorCode::AuthError,
        ApiErrorCode::ItemNotFound,
        ApiErrorCode::DownloadTooLarge,
        ApiErrorCode::MonthlyLimit,
        ApiErrorCode::CooldownLimit,
        ApiErrorCode::ActiveLimit,
        ApiErrorCode::ConfirmationExpired,
    ];
    for c in codes {
        assert_eq!(parse_code(as_code_str(c)), Some(c));
    }
}

#[test]
fn code_strings_are_the_wire_text() {
    assert_eq!(as_code_str(ApiErrorCode::ItemNotFound), "ITEM_NOT_FOUND");
    assert_eq!(as_code_str(ApiErrorCode::DatabaseError), "DATABASE_ERROR");
    assert_eq!(as_code_str(ApiErrorCode::OauthVerificationError), "OAUTH_VERIFICATION_ERROR");
    assert_eq!(parse_code("NO_SERVERS_AVAILABLE_ERROR"), Some(ApiErrorCode::NoServersAvailableError));
    assert_eq!(parse_code("not a code"), None);
    assert_eq!(parse_code(""), None);
}

#[test]
fn structured_code_round_trips() {
    let v = ErrorValue::Code(ApiErrorCode::ItemNotFound);
    let j = v.to_json();
    assert_eq!(j, JsonVal::Str("ITEM_NOT_FOUND".to_string()));
    assert_eq!(ErrorValue::from_json(&j), Some(v));
}

#[test]
fn boolean_error_round_trips() {
    for b in [true, false] {
        let v = ErrorValue::Bool(b);
        let j = v.to_json();
        assert_eq!(j, JsonVal::Bool(b));
        assert_eq!(ErrorValue::from_json(&j), Some(v));
    }
}

#[test]
fn free_text_round_trips() {
    let v = ErrorValue::Message("something odd happened".to_string());
    let j = v.to_json();
    assert_eq!(ErrorValue::from_json(&j), Some(v));
}

#[test]
fn structured_code_is_tried_before_text() {
    // A string that spells a known code decodes as the code, never as
    // free text.
    let j = JsonVal::Str("ITEM_NOT_FOUND".to_string());
    assert_eq!(
        ErrorValue::from_json(&j),
        Some(ErrorValue::Code(ApiErrorCode::ItemNotFound)),
    );
    // A string that spells no known code falls through to free text.
    let j = JsonVal::Str("ITEM_NOT_FOUND_EXTRA".to_string());
    assert_eq!(
        ErrorValue::from_json(&j),
        Some(ErrorValue::Message("ITEM_NOT_FOUND_EXTRA".to_string())),
    );
}

#[test]
fn non_string_non_bool_is_no_error_value() {
    assert_eq!(ErrorValue::from_json(&JsonVal::UInt(5)), None);
    assert_eq!(ErrorValue::from_json(&JsonVal::Null), None);
    assert_eq!(ErrorValue::from_json(&JsonVal::Arr(vec![])), None);
}
