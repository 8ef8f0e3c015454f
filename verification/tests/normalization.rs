//! Response-shape normalization: one-or-many, redirect-or-JSON, and
//! JSON-or-binary.

use torbox::api::ApiResponse;
use torbox::client::{ResponseBody, body_as_string, parse_response};
use torbox::enums::{OneOrMany, normalize_opt};
use torbox::error::ApiError;
use torbox::json::JsonVal;
use torbox::normalize::{DownloadLinkResponse, LocationHeader, normalize_download_link};
use torbox::torrent::TorrentExportResponse;

#[test]
fn one_normalizes_to_single_element_list() {
    let one: OneOrMany<u32> = OneOrMany::One(7);
    assert_eq!(one.normalize(), vec![7]);
}

#[test]
fn many_normalizes_to_same_list_in_order() {
    let many: OneOrMany<u32> = OneOrMany::Many(vec![1, 2, 3]);
    assert_eq!(many.normalize(), vec![1, 2, 3]);
}

#[test]
fn absent_normalizes_to_absent() {
    assert_eq!(normalize_opt::<u32>(None), None);
    assert_eq!(normalize_opt(Some(OneOrMany::One(9u32))), Some(vec![9]));
}

#[test]
fn redirect_with_location_yields_redirect() {
    let r = normalize_download_link(
        true,
        302,
        LocationHeader::Text("https://example/x".to_string()),
        b"",
    );
    assert_eq!(r, Ok(DownloadLinkResponse::Redirect("https://example/x".to_string())));
}

#[test]
fn redirect_without_location_is_a_redirect_error() {
    let r = normalize_download_link(true, 302, LocationHeader::Missing, b"");
    assert!(matches!(r, Err(ApiError::RedirectError(_))));
    let r = normalize_download_link(true, 307, LocationHeader::Unreadable, b"");
    assert!(matches!(r, Err(ApiError::RedirectError(_))));
}

#[test]
fn json_body_yields_json_whether_or_not_redirect_was_asked() {
    let body = br#"{"success":true,"error":null,"detail":null,"data":"https://cdn/x"}"#;
    for requested in [true, false] {
        let r = normalize_download_link(requested, 200, LocationHeader::Missing, body);
        match r {
            Ok(DownloadLinkResponse::Json(env)) => {
                assert!(env.success);
                assert_eq!(env.data, Some("https://cdn/x".to_string()));
            },
            other => panic!("expected a JSON reply, got {other:?}"),
        }
    }
}

#[test]
fn unparseable_body_after_requested_redirect_is_unexpected_payload() {
    let r = normalize_download_link(true, 200, LocationHeader::Missing, b"\x00\x01");
    assert_eq!(r, Err(ApiError::UnexpectedPayload));
}

#[test]
fn unparseable_body_without_redirect_is_a_serde_error() {
    let r = normalize_download_link(false, 200, LocationHeader::Missing, b"\x00\x01");
    assert!(matches!(r, Err(ApiError::SerdeError(_))));
}

#[test]
fn export_bytes_that_parse_as_envelope_are_json() {
    let body = br#"{"success":true,"error":null,"detail":null,"data":"magnet:?xt=urn:btih:aa"}"#;
    match TorrentExportResponse::from_bytes(body.to_vec()) {
        TorrentExportResponse::Json(env) => {
            assert_eq!(env.data, Some("magnet:?xt=urn:btih:aa".to_string()));
        },
        other => panic!("expected the JSON variant, got {other:?}"),
    }
}

#[test]
fn export_bytes_that_are_no_json_stay_binary_byte_for_byte() {
    let body: Vec<u8> = b"d8:announce35:udp://tracker".to_vec();
    match TorrentExportResponse::from_bytes(body.clone()) {
        TorrentExportResponse::File(bytes) => assert_eq!(bytes, body),
        other => panic!("expected the file variant, got {other:?}"),
    }
}

#[test]
fn list_reply_with_bare_object_is_a_one_element_list() {
    let body = br#"{"success":true,"error":null,"detail":null,"data":{"id":5,"name":"only"}}"#;
    let env = torbox::api::decode_envelope_bytes(body).expect("envelope should decode");
    let normalized = torbox::enums::normalize_list_data(env);
    let items = normalized.data.expect("data should be present");
    assert_eq!(items.len(), 1);
    assert!(matches!(items[0], JsonVal::Obj(_)));
}

#[test]
fn list_reply_with_array_keeps_all_items_in_order() {
    let body = br#"{"success":true,"error":null,"detail":null,"data":[1,2,3]}"#;
    let env = torbox::api::decode_envelope_bytes(body).expect("envelope should decode");
    let normalized = torbox::enums::normalize_list_data(env);
    assert_eq!(
        normalized.data,
        Some(vec![JsonVal::UInt(1), JsonVal::UInt(2), JsonVal::UInt(3)]),
    );
}

#[test]
fn json_content_type_decodes_an_envelope() {
    let body = br#"{"success":true,"error":null,"detail":null,"data":7}"#.to_vec();
    match parse_response("application/json; charset=utf-8", body) {
        Ok(ResponseBody::Envelope(env)) => assert_eq!(env.data, Some(JsonVal::UInt(7))),
        other => panic!("expected an envelope, got {other:?}"),
    }
}

#[test]
fn other_content_type_passes_bytes_through() {
    let body = b"<rss version=\"2.0\"/>".to_vec();
    match parse_response("application/rss+xml", body.clone()) {
        Ok(ResponseBody::Raw(bytes)) => assert_eq!(bytes, body),
        other => panic!("expected raw bytes, got {other:?}"),
    }
}

#[test]
fn raw_text_body_decodes_as_utf8() {
    assert_eq!(body_as_string(b"<rss/>".to_vec()), Ok("<rss/>".to_string()));
    let err = body_as_string(vec![0xff, 0xfe, 0x00]).unwrap_err();
    assert!(matches!(err, ApiError::Custom(_)));
}

#[test]
fn map_then_unwrap_preserves_normalized_list() {
    let env = ApiResponse::<OneOrMany<u32>> {
        success: true,
        error: None,
        detail: None,
        data: Some(OneOrMany::One(4)),
    };
    let normalized = env.map(|oom| oom.normalize());
    assert_eq!(normalized.unwrap_data(), Ok(vec![4]));
}
