//! Envelope decoding and unwrapping, end to end from raw bytes.

use torbox::api::ApiResponse;
use torbox::error::{ApiError, ApiErrorCode, ErrorValue};
use torbox::json::JsonVal;
use torbox::payload::TorrentCreatePayload;

fn decode(bytes: &[u8]) -> Result<ApiResponse<JsonVal>, ApiError> {
    torbox::api::decode_envelope_bytes(bytes)
}

#[test]
fn success_with_data_unwraps_to_data() {
    let body = br#"{"success":true,"error":null,"detail":null,"data":"link-text"}"#;
    let env = decode(body).expect("envelope should decode");
    assert!(env.success);
    let data = env.unwrap_data().expect("unwrap should yield the data");
    assert_eq!(data, JsonVal::Str("link-text".to_string()));
}

#[test]
fn failure_with_error_unwraps_to_failure_preserved() {
    let body = br#"{"success":false,"error":"AUTH_ERROR","detail":null,"data":null}"#;
    let env = decode(body).expect("envelope should decode");
    let err = env.unwrap_data().unwrap_err();
    assert_eq!(err, ApiError::Failure(ErrorValue::Code(ApiErrorCode::AuthError)));
}

#[test]
fn success_without_data_is_unexpected_payload() {
    let body = br#"{"success":true,"error":null,"detail":null,"data":null}"#;
    let env = decode(body).expect("envelope should decode");
    let err = env.unwrap_data().unwrap_err();
    assert_eq!(err, ApiError::UnexpectedPayload);
}

#[test]
fn success_without_data_is_valid_empty_when_optional() {
    let body = br#"{"success":true,"error":null,"detail":null,"data":null}"#;
    let env = decode(body).expect("envelope should decode");
    assert_eq!(env.unwrap_optional_data(), Ok(None));
}

#[test]
fn failure_without_error_is_unexpected_payload() {
    let body = br#"{"success":false,"error":null,"detail":null,"data":null}"#;
    let env = decode(body).expect("envelope should decode");
    assert_eq!(env.unwrap_data().unwrap_err(), ApiError::UnexpectedPayload);
}

#[test]
fn absent_fields_decode_like_null_fields() {
    let env = decode(br#"{"success":true}"#).expect("envelope should decode");
    assert!(env.success);
    assert_eq!(env.error, None);
    assert_eq!(env.detail, None);
    assert_eq!(env.data, None);
}

#[test]
fn boolean_error_value_is_kept() {
    let body = br#"{"success":false,"error":false,"detail":"broke","data":null}"#;
    let env = decode(body).expect("envelope should decode");
    assert_eq!(env.detail, Some("broke".to_string()));
    assert_eq!(env.unwrap_data().unwrap_err(), ApiError::Failure(ErrorValue::Bool(false)));
}

#[test]
fn invalid_json_is_a_serde_error() {
    let err = decode(b"{not json").unwrap_err();
    assert!(matches!(err, ApiError::SerdeError(_)));
}

#[test]
fn json_that_is_no_envelope_is_a_serde_error() {
    let err = decode(br#"{"error":null}"#).unwrap_err();
    assert!(matches!(err, ApiError::SerdeError(_)));
    let err = decode(br#"{"success":"yes"}"#).unwrap_err();
    assert!(matches!(err, ApiError::SerdeError(_)));
    let err = decode(br#"[1,2,3]"#).unwrap_err();
    assert!(matches!(err, ApiError::SerdeError(_)));
}

#[test]
fn numbers_keep_their_exact_form() {
    let env = decode(br#"{"success":true,"data":18446744073709551615}"#).unwrap();
    assert_eq!(env.data, Some(JsonVal::UInt(u64::MAX)));

    let env = decode(br#"{"success":true,"data":-3}"#).unwrap();
    assert_eq!(env.data, Some(JsonVal::Int(-3)));

    let env = decode(br#"{"success":true,"data":1.5}"#).unwrap();
    assert_eq!(env.data, Some(JsonVal::NumStr("1.5".to_string())));
}

#[test]
fn map_keeps_every_field_and_maps_data() {
    let env = ApiResponse::<u64> {
        success: true,
        error: None,
        detail: Some("d".to_string()),
        data: Some(21),
    };
    let doubled = env.map(|x| x * 2);
    assert!(doubled.success);
    assert_eq!(doubled.detail, Some("d".to_string()));
    assert_eq!(doubled.data, Some(42));

    let empty = ApiResponse::<u64> { success: false, error: None, detail: None, data: None };
    let mapped = empty.map(|x| x + 1);
    assert_eq!(mapped.data, None);
}

#[test]
fn create_resource_scenario_yields_typed_result() {
    let body =
        br#"{"success":true,"error":null,"detail":null,"data":{"id":42,"auth_id":"abc","hash":"deadbeef"}}"#;
    let env = decode(body).expect("envelope should decode");
    let data = env.unwrap_data().expect("unwrap should yield the data");
    let created = torbox::data::TorrentCreationResponse::from_json(&data)
        .expect("creation payload should decode");
    assert_eq!(created.id, 42);
    assert_eq!(created.auth_id, "abc");
    assert_eq!(created.hash, "deadbeef");
}

#[test]
fn item_not_found_scenario_yields_structured_failure() {
    let body = br#"{"success":false,"error":"ITEM_NOT_FOUND","detail":null,"data":null}"#;
    let env = decode(body).expect("envelope should decode");
    let err = env.unwrap_data().unwrap_err();
    assert_eq!(err, ApiError::Failure(ErrorValue::Code(ApiErrorCode::ItemNotFound)));
}

#[test]
fn webdownload_creation_payload_decodes() {
    let body =
        br#"{"success":true,"error":null,"detail":null,"data":{"hash":"h1","webdownload_id":"w9","auth_id":"a7"}}"#;
    let env = decode(body).expect("envelope should decode");
    let data = env.unwrap_data().expect("unwrap should yield the data");
    let created = torbox::data::WebDownloadCreationResponse::from_json(&data)
        .expect("creation payload should decode");
    assert_eq!(created.hash, "h1");
    assert_eq!(created.webdownload_id, "w9");
    assert_eq!(created.auth_id, "a7");
}

#[test]
fn create_payload_tries_each_shape_in_order() {
    let j = |s: &[u8]| {
        decode(s).unwrap().unwrap_data().unwrap()
    };
    let created = j(
        br#"{"success":true,"data":{"id":1,"auth_id":"a","hash":"h"}}"#,
    );
    assert!(matches!(
        TorrentCreatePayload::from_json(&created),
        Some(TorrentCreatePayload::Created(_)),
    ));

    let active = j(
        br#"{"success":true,"data":{"active_limit":5,"current_active_downloads":5}}"#,
    );
    assert_eq!(
        TorrentCreatePayload::from_json(&active),
        Some(TorrentCreatePayload::ActiveLimit(torbox::data::ActiveLimitStatus {
            active_limit: 5,
            current_active_downloads: 5,
        })),
    );

    let monthly = j(
        br#"{"success":true,"data":{"monthly_limit":10,"current_downloads":11}}"#,
    );
    assert!(matches!(
        TorrentCreatePayload::from_json(&monthly),
        Some(TorrentCreatePayload::MonthlyLimit(_)),
    ));

    let cooldown = j(
        br#"{"success":true,"data":{"cooldown_until":"2024-01-01T00:00:00Z","current_time":"2023-12-31T00:00:00Z"}}"#,
    );
    assert!(matches!(
        TorrentCreatePayload::from_json(&cooldown),
        Some(TorrentCreatePayload::CooldownLimit(_)),
    ));

    let message = j(br#"{"success":true,"data":"queued"}"#);
    assert_eq!(
        TorrentCreatePayload::from_json(&message),
        Some(TorrentCreatePayload::Message("queued".to_string())),
    );

    assert_eq!(
        TorrentCreatePayload::from_json(&JsonVal::Null),
        Some(TorrentCreatePayload::Empty),
    );
    assert_eq!(TorrentCreatePayload::from_json(&JsonVal::UInt(3)), None);
}

#[test]
fn stats_payload_decodes_with_partial_fields() {
    let body =
        br#"{"success":true,"error":null,"detail":null,"data":{"total_downloads":3,"total_users":null,"active_torrents":1}}"#;
    let env = decode(body).expect("envelope should decode");
    let data = env.unwrap_data().expect("unwrap should yield the data");
    let stats = torbox::data::TorboxGeneralStats::from_json(&data)
        .expect("stats payload should decode");
    assert_eq!(stats.total_downloads, Some(3));
    assert_eq!(stats.total_users, None);
    assert_eq!(stats.active_torrents, Some(1));
    assert_eq!(stats.total_servers, None);
}
