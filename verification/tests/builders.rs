//! Request builders: client state, headers, bodies, queries and
//! endpoint descriptors.

use torbox::client::{ApiHeadersUreq, HttpMethod, TorboxClient};
use torbox::forms::{FieldValue, FormPart};
use torbox::general::{FileLength, SpeedTestQuery};
use torbox::torrent::{ListTorrentsQuery, TorrentCreateBody, TorrentExportDataQuery,
    TorrentExportType, TorrentInfoBody, TorrentInfoQuery, TorrentSource, TorrentStatusQuery};
use torbox::user::UserDataQuery;
use torbox::webdownload::{WebdownloadControlBody, WebdownloadControlQuery,
    WebdownloadControlReq, WebdownloadControlSource, WebdownloadCreateBody, WebdownloadOperation};

fn text(name: &str, value: &str) -> FormPart {
    FormPart { name: name.to_string(), value: FieldValue::Text(value.to_string()) }
}

fn uint(name: &str, value: u64) -> FormPart {
    FormPart { name: name.to_string(), value: FieldValue::UInt(value) }
}

fn flag(name: &str, value: bool) -> FormPart {
    FormPart { name: name.to_string(), value: FieldValue::Flag(value) }
}

#[test]
fn client_holds_token_and_base_url() {
    let client = TorboxClient::new("tok".to_string());
    assert_eq!(client.token(), "tok");
    assert_eq!(client.base_url, "https://api.torbox.app/v1");
    assert_eq!(client.url_for("api/stats"), "https://api.torbox.app/v1/api/stats");
    let other = client.with_base_url("https://api.torbox.app".to_string());
    assert_eq!(other.token(), "tok");
    assert_eq!(other.url_for(""), "https://api.torbox.app/");
}

#[test]
fn client_headers_carry_accept_and_bearer() {
    let client = TorboxClient::new("tok".to_string());
    let headers = client.header_pairs();
    assert_eq!(headers.len(), 2);
    assert_eq!(headers[0], ("Accept".to_string(), "application/json".to_string()));
    assert_eq!(headers[1], ("Authorization".to_string(), "Bearer tok".to_string()));
}

#[test]
fn ureq_headers_carry_the_three_standard_pairs() {
    let h = ApiHeadersUreq::new("secret");
    assert_eq!(h.headers.len(), 3);
    assert_eq!(h.headers[0], ("Content-Type".to_string(), "application/json".to_string()));
    assert_eq!(h.headers[1], ("Accept".to_string(), "application/json".to_string()));
    assert_eq!(h.headers[2], ("Authorization".to_string(), "Bearer secret".to_string()));
}

#[test]
fn info_body_prefers_hash_over_magnet_over_file() {
    let b = TorrentInfoBody::try_new(
        Some("h".to_string()),
        Some("m".to_string()),
        Some("f".to_string()),
        None,
    )
    .unwrap();
    assert_eq!(b.hash, Some("h".to_string()));
    assert_eq!(b.magnet, None);
    assert_eq!(b.file, None);
    assert_eq!(b.timeout, 10);

    let b = TorrentInfoBody::try_new(None, Some("m".to_string()), Some("f".to_string()), Some(3))
        .unwrap();
    assert_eq!(b.magnet, Some("m".to_string()));
    assert_eq!(b.file, None);
    assert_eq!(b.timeout, 3);

    let b = TorrentInfoBody::try_new(None, None, Some("f".to_string()), None).unwrap();
    assert_eq!(b.file, Some("f".to_string()));

    assert_eq!(TorrentInfoBody::try_new(None, None, None, Some(9)), None);
}

#[test]
fn create_body_serializes_magnet_form_in_order() {
    let body = TorrentCreateBody {
        source: TorrentSource::Magnet("magnet:?xt=x".to_string()),
        seed: Some(2),
        allow_zip: true,
        name: Some("my torrent".to_string()),
        as_queued: Some(false),
    };
    let parts = body.to_form_parts();
    assert_eq!(
        parts,
        vec![
            text("magnet", "magnet:?xt=x"),
            uint("seed", 2),
            flag("allow_zip", true),
            text("name", "my torrent"),
            flag("queued", false),
        ],
    );
}

#[test]
fn create_body_skips_absent_fields() {
    let body = TorrentCreateBody {
        source: TorrentSource::File(vec![1, 2, 3]),
        seed: None,
        allow_zip: false,
        name: None,
        as_queued: None,
    };
    let parts = body.to_form_parts();
    assert_eq!(parts.len(), 2);
    assert_eq!(parts[0].name, "file");
    assert_eq!(parts[0].value, FieldValue::Bytes(vec![1, 2, 3]));
    assert_eq!(parts[1], flag("allow_zip", false));
}

#[test]
fn webdownload_create_body_serializes_in_order() {
    let body = WebdownloadCreateBody {
        link: "https://example/file".to_string(),
        password: Some("pw".to_string()),
        name: Some("n".to_string()),
        as_queued: None,
        add_only_if_cached: Some(true),
    };
    let parts = body.to_form_parts();
    assert_eq!(
        parts,
        vec![
            text("link", "https://example/file"),
            text("name", "n"),
            text("password", "pw"),
            flag("add_only_if_cached", true),
        ],
    );
}

#[test]
fn control_request_splits_into_query_and_body() {
    let req = WebdownloadControlReq {
        source: WebdownloadControlSource::WebdlId(12),
        operation: WebdownloadOperation::Delete,
        bypass_cache: true,
    };
    let (query, body) = req.into_parts();
    assert_eq!(query, WebdownloadControlQuery { bypass_cache: true });
    assert_eq!(
        body,
        WebdownloadControlBody {
            source: WebdownloadControlSource::WebdlId(12),
            operation: WebdownloadOperation::Delete,
        },
    );
}

#[test]
fn magnet_text_parses_as_magnet_source() {
    let s = TorrentSource::parse("magnet:?xt=urn:btih:aa".to_string()).unwrap();
    assert_eq!(s, TorrentSource::Magnet("magnet:?xt=urn:btih:aa".to_string()));
}

#[test]
fn base64_text_parses_as_file_bytes() {
    let s = TorrentSource::parse("aGVsbG8=".to_string()).unwrap();
    assert_eq!(s, TorrentSource::File(b"hello".to_vec()));
}

#[test]
fn text_that_is_neither_magnet_nor_base64_is_rejected() {
    let err = TorrentSource::parse("definitely not base64!!".to_string()).unwrap_err();
    assert!(matches!(err, torbox::error::ApiError::SerdeError(_)));
}

#[test]
fn list_query_default_matches_the_service_defaults() {
    let q = ListTorrentsQuery::default();
    assert_eq!(q.bypass_cache, Some(false));
    assert_eq!(q.offset, Some(0));
    assert_eq!(q.limit, Some(1000));
    assert_eq!(
        q.to_query_parts(),
        vec![flag("bypass_cache", false), uint("offset", 0), uint("limit", 1000)],
    );
}

#[test]
fn queries_serialize_their_fields_in_order() {
    assert_eq!(
        TorrentStatusQuery { bypass_cache: true, id: 9 }.to_query_parts(),
        vec![flag("bypass_cache", true), uint("id", 9)],
    );
    assert_eq!(
        TorrentInfoQuery { hash: "ff".to_string(), timeout: Some(30) }.to_query_parts(),
        vec![text("hash", "ff"), uint("timeout", 30)],
    );
    assert_eq!(
        TorrentInfoQuery { hash: "ff".to_string(), timeout: None }.to_query_parts(),
        vec![text("hash", "ff")],
    );
    assert_eq!(
        TorrentExportDataQuery { torrent_id: 4, data_type: TorrentExportType::Magnet }
            .to_query_parts(),
        vec![uint("torrent_id", 4), text("type", "magnet")],
    );
    assert_eq!(
        TorrentExportDataQuery { torrent_id: 4, data_type: TorrentExportType::File }
            .to_query_parts(),
        vec![uint("torrent_id", 4), text("type", "file")],
    );
    assert_eq!(UserDataQuery { settings: true }.to_query_parts(), vec![flag("settings", true)]);
    assert_eq!(
        SpeedTestQuery { test_length: Some(FileLength::Long), region: None }.to_query_parts(),
        vec![text("test_length", "long")],
    );
}

#[test]
fn endpoint_descriptors_name_their_paths_and_methods() {
    assert_eq!(torbox::torrent::TorrentCreatePostEp::path(), "api/torrents/createtorrent");
    assert_eq!(torbox::torrent::TorrentCreatePostEp::method(), HttpMethod::Post);
    assert_eq!(torbox::torrent::ListTorrentsGetEp::path(), "api/torrents/mylist");
    assert_eq!(torbox::torrent::ListTorrentsGetEp::method(), HttpMethod::Get);
    assert_eq!(torbox::torrent::TorrentRequestLinkGetEp::path(), "api/torrents/requestdl");
    assert_eq!(torbox::webdownload::WebdownloadCreatePostEp::path(), "api/webdl/createwebdownload");
    assert_eq!(torbox::webdownload::ListWebdownloadsGetEp::path(), "api/webdl/mylist");
    assert_eq!(torbox::general::GetStatsEp::path(), "api/stats");
    assert_eq!(torbox::general::GetUpStatusEp::path(), "");
    assert_eq!(torbox::notifications::ClearAllNotificationsEp::path(), "api/notifications/clear");
    assert_eq!(torbox::user::GetUserDataEp::path(), "api/user/me");
    assert_eq!(torbox::user::GetUserDataEp::method(), HttpMethod::Get);
}
