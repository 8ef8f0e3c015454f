//! Torrent requests: sources, bodies, queries, endpoints, and the
//! normalization of export replies.

use vstd::prelude::*;
use crate::api::ApiResponse;
use crate::client::HttpMethod;
use crate::error::ApiError;
use crate::forms::{FieldValueData, FormPart, parts_view};
use crate::json::{JsonVal, json_of, parse_json};
use crate::normalize::{DownloadLinkResponse, env_str_view, spec_parsed_string_envelope,
    string_envelope_from_json};
use crate::strutil::{spec_starts_with, str_starts_with};

verus! {

/// What a torrent is created from: a magnet link, or the bytes of a
/// torrent file.
#[derive(Debug, Clone, PartialEq, Eq)]
pub enum TorrentSource {
    Magnet(String),
    File(Vec<u8>),
}

/// Decoded bytes of a standard-alphabet base64 string, if it decodes at
/// all.  Decoding is a function of the string alone; this name stands
/// for its result, and [`base64_decode`] is the only place it is given a
/// value.
pub uninterp spec fn base64_of(s: Seq<char>) -> Option<Seq<u8>>;

/// Relies on `base64::decode` (standard alphabet): returns the decoded
/// bytes, or `None` when the string is not valid base64.
#[verifier::external_body]
fn base64_decode(s: &str) -> (r: Option<Vec<u8>>)
    ensures
        match r {
            Some(v) => base64_of(s@) == Some(v@),
            None => base64_of(s@) is None,
        },
{
    base64::decode(s).ok()
}

impl TorrentSource {
    /// Reads a source from its wire text: a string starting with
    /// `magnet:` is a magnet link; anything else must be base64-encoded
    /// file bytes.
    pub fn parse(s: String) -> (r: Result<TorrentSource, ApiError>)
        ensures
            spec_starts_with(s@, "magnet:"@) ==> r == Ok::<TorrentSource, ApiError>(
                TorrentSource::Magnet(s),
            ),
            !spec_starts_with(s@, "magnet:"@) ==> match base64_of(s@) {
                Some(bytes) => r matches Ok(TorrentSource::File(f)) && f@ == bytes,
                None => r matches Err(e) && e is SerdeError,
            },
    {
        if str_starts_with(s.as_str(), "magnet:") {
            Ok(TorrentSource::Magnet(s))
        } else {
            match base64_decode(s.as_str()) {
                Some(bytes) => Ok(TorrentSource::File(bytes)),
                None => Err(ApiError::SerdeError("source is not a magnet link or base64".to_owned())),
            }
        }
    }
}

/// An operation on a torrent.
#[derive(Debug, Clone, Copy, PartialEq, Eq, Structural)]
pub enum TorrentOperation {
    /// Reannounces the torrent to get new peers.
    Reannounce,
    /// Deletes the torrent from the account permanently.
    Delete,
    /// Resumes a paused torrent.
    Resume,
}

/// Which torrents a control request addresses.
#[derive(Debug, Clone, Copy, PartialEq, Eq, Structural)]
pub enum TorrentControlSource {
    /// One torrent, by its id.
    TorrentId(u32),
    /// Every torrent of the account.
    All(bool),
}

/// A download-link reply for a torrent: either a JSON envelope whose
/// data is the link, or the target of an HTTP redirect.
#[derive(Debug, PartialEq, Eq)]
pub enum TorrentDownloadResponse {
    Json(ApiResponse<String>),
    Redirect(String),
}

impl TorrentDownloadResponse {
    /// The torrent-flavoured form of a normalized download link.
    pub fn from_link(r: DownloadLinkResponse) -> (out: TorrentDownloadResponse)
        ensures
            match r {
                DownloadLinkResponse::Json(env) => out == TorrentDownloadResponse::Json(env),
                DownloadLinkResponse::Redirect(url) => out == TorrentDownloadResponse::Redirect(
                    url,
                ),
            },
    {
        match r {
            DownloadLinkResponse::Json(env) => TorrentDownloadResponse::Json(env),
            DownloadLinkResponse::Redirect(url) => TorrentDownloadResponse::Redirect(url),
        }
    }
}

/// What an export endpoint may ask for.
#[derive(Debug, Clone, Copy, PartialEq, Eq, Structural)]
pub enum TorrentExportType {
    /// A JSON envelope whose data is the magnet link.
    Magnet,
    /// The torrent file itself, as a binary download.
    File,
}

/// An export reply: a JSON envelope carrying a magnet link, or the raw
/// bytes of a torrent file.
#[derive(Debug, PartialEq, Eq)]
pub enum TorrentExportResponse {
    Json(ApiResponse<String>),
    File(Vec<u8>),
}

impl TorrentExportResponse {
    /// Classifies an export reply from the parsed form of its bytes:
    /// bytes that parsed as a string-typed envelope are the JSON reply;
    /// anything else is the file itself, byte for byte.
    pub fn classify(parsed: Option<JsonVal>, body: Vec<u8>) -> (r: TorrentExportResponse)
        ensures
            match spec_parsed_string_envelope(parsed) {
                Some(ed) => r matches TorrentExportResponse::Json(env) && env_str_view(env) == ed,
                None => r == TorrentExportResponse::File(body),
            },
    {
        match parsed {
            Some(j) => match string_envelope_from_json(&j) {
                Some(env) => TorrentExportResponse::Json(env),
                None => TorrentExportResponse::File(body),
            },
            None => TorrentExportResponse::File(body),
        }
    }

    /// Reads an export reply from raw bytes, trying the JSON envelope
    /// first and falling back to the file bytes unchanged.  Bytes whose
    /// content happens to be a valid envelope are read as JSON even if
    /// they were meant as a file; that ordering is deliberate.
    pub fn from_bytes(bytes: Vec<u8>) -> (r: TorrentExportResponse)
        ensures
            match spec_parsed_string_envelope(json_of(bytes@)) {
                Some(ed) => r matches TorrentExportResponse::Json(env) && env_str_view(env) == ed,
                None => r == TorrentExportResponse::File(bytes),
            },
    {
        let parsed = parse_json(bytes.as_slice());
        TorrentExportResponse::classify(parsed, bytes)
    }
}

/// A request for torrent metadata, sent as a JSON body.  Exactly one of
/// `hash`, `magnet` and `file` is set, in that order of precedence.
#[derive(Debug, Clone, PartialEq, Eq)]
pub struct TorrentInfoBody {
    /// The torrent hash to search for (highest precedence).
    pub hash: Option<String>,
    /// A magnet link, used if `hash` is not provided.
    pub magnet: Option<String>,
    /// A torrent file as base64 text, used if neither `hash` nor
    /// `magnet` is present.
    pub file: Option<String>,
    /// Timeout in seconds for the lookup.
    pub timeout: u32,
}

impl TorrentInfoBody {
    /// Builds the body with precedence enforced: `hash` wins over
    /// `magnet`, which wins over `file`; the other two fields are
    /// cleared.  With none of the three there is no valid body.  The
    /// timeout defaults to 10 seconds.
    pub fn try_new(
        hash: Option<String>,
        magnet: Option<String>,
        file: Option<String>,
        timeout: Option<u32>,
    ) -> (r: Option<TorrentInfoBody>)
        ensures
            ({
                let t = match timeout {
                    Some(t) => t,
                    None => 10u32,
                };
                match (hash, magnet, file) {
                    (Some(h), _, _) => r == Some(
                        TorrentInfoBody { hash: Some(h), magnet: None, file: None, timeout: t },
                    ),
                    (None, Some(m), _) => r == Some(
                        TorrentInfoBody { hash: None, magnet: Some(m), file: None, timeout: t },
                    ),
                    (None, None, Some(f)) => r == Some(
                        TorrentInfoBody { hash: None, magnet: None, file: Some(f), timeout: t },
                    ),
                    (None, None, None) => r is None,
                }
            }),
    {
        let t = match timeout {
            Some(t) => t,
            None => 10,
        };
        match (hash, magnet, file) {
            (Some(h), _, _) => Some(
                TorrentInfoBody { hash: Some(h), magnet: None, file: None, timeout: t },
            ),
            (None, Some(m), _) => Some(
                TorrentInfoBody { hash: None, magnet: Some(m), file: None, timeout: t },
            ),
            (None, None, Some(f)) => Some(
                TorrentInfoBody { hash: None, magnet: None, file: Some(f), timeout: t },
            ),
            (None, None, None) => None,
        }
    }
}

/// A request to create a torrent, sent as a multipart form.
#[derive(Debug, Clone, PartialEq, Eq)]
pub struct TorrentCreateBody {
    /// The magnet link or file the torrent is created from.
    pub source: TorrentSource,
    /// Seeding preference: 1 is auto, 2 is seed, 3 is don't seed.
    pub seed: Option<u8>,
    /// Whether the torrent may be zipped.
    pub allow_zip: bool,
    /// The name the torrent should get.
    pub name: Option<String>,
    /// Whether the torrent should be queued instantly.
    pub as_queued: Option<bool>,
}

/// The form fields a create-torrent body serializes to, in order: the
/// source, then `seed` if set, `allow_zip` always, `name` if set, and
/// `queued` if set.
pub open spec fn spec_torrent_create_parts(b: TorrentCreateBody) -> Seq<
    (Seq<char>, FieldValueData),
> {
    (match b.source {
        TorrentSource::Magnet(m) => seq![("magnet"@, FieldValueData::Text(m@))],
        TorrentSource::File(f) => seq![("file"@, FieldValueData::Bytes(f@))],
    }) + (match b.seed {
        Some(s) => seq![("seed"@, FieldValueData::UInt(s as u64))],
        None => Seq::empty(),
    }) + seq![("allow_zip"@, FieldValueData::Flag(b.allow_zip))] + (match b.name {
        Some(n) => seq![("name"@, FieldValueData::Text(n@))],
        None => Seq::empty(),
    }) + (match b.as_queued {
        Some(q) => seq![("queued"@, FieldValueData::Flag(q))],
        None => Seq::empty(),
    })
}

impl TorrentCreateBody {
    /// The multipart form this body is sent as.
    pub fn to_form_parts(self) -> (r: Vec<FormPart>)
        ensures
            parts_view(r@) == spec_torrent_create_parts(self),
    {
        let mut parts: Vec<FormPart> = Vec::new();
        match self.source {
            TorrentSource::Magnet(m) => parts.push(FormPart::text("magnet", m)),
            TorrentSource::File(f) => parts.push(FormPart::bytes("file", f)),
        }
        if let Some(s) = self.seed {
            parts.push(FormPart::uint("seed", s as u64));
        }
        parts.push(FormPart::flag("allow_zip", self.allow_zip));
        if let Some(n) = self.name {
            parts.push(FormPart::text("name", n));
        }
        if let Some(q) = self.as_queued {
            parts.push(FormPart::flag("queued", q));
        }
        proof {
            assert(parts_view(parts@) =~= spec_torrent_create_parts(self));
        }
        parts
    }
}

/// A request to control a torrent: which torrents, and what to do.
#[derive(Debug, Clone, Copy, PartialEq, Eq, Structural)]
pub struct TorrentControlBody {
    /// One torrent by id, or all of them.
    pub source: TorrentControlSource,
    /// The operation to perform.
    pub operation: TorrentOperation,
}

/// The query of the torrent-list endpoint.  The `id` filter is left out
/// on purpose: with it the service answers with a bare object instead of
/// a list.
#[derive(Debug, Clone, Copy, PartialEq, Eq, Structural)]
pub struct ListTorrentsQuery {
    /// Bypass the cached data and always get fresh information.
    pub bypass_cache: Option<bool>,
    /// Offset of the first item to get.
    pub offset: Option<u32>,
    /// Number of items per request.
    pub limit: Option<u32>,
}

impl Default for ListTorrentsQuery {
    /// The service's defaults, written out: cache kept, offset 0, limit
    /// 1000.
    fn default() -> (r: Self)
        ensures
            r == (ListTorrentsQuery {
                bypass_cache: Some(false),
                offset: Some(0u32),
                limit: Some(1000u32),
            }),
    {
        ListTorrentsQuery { bypass_cache: Some(false), offset: Some(0), limit: Some(1000) }
    }
}

/// The query fields of a torrent-list request, in order, absent options
/// skipped.
pub open spec fn spec_list_torrents_query_parts(q: ListTorrentsQuery) -> Seq<
    (Seq<char>, FieldValueData),
> {
    (match q.bypass_cache {
        Some(b) => seq![("bypass_cache"@, FieldValueData::Flag(b))],
        None => Seq::empty(),
    }) + (match q.offset {
        Some(o) => seq![("offset"@, FieldValueData::UInt(o as u64))],
        None => Seq::empty(),
    }) + (match q.limit {
        Some(l) => seq![("limit"@, FieldValueData::UInt(l as u64))],
        None => Seq::empty(),
    })
}

impl ListTorrentsQuery {
    /// The query pairs this request serializes to.
    pub fn to_query_parts(&self) -> (r: Vec<FormPart>)
        ensures
            parts_view(r@) == spec_list_torrents_query_parts(*self),
    {
        let mut parts: Vec<FormPart> = Vec::new();
        if let Some(b) = self.bypass_cache {
            parts.push(FormPart::flag("bypass_cache", b));
        }
        if let Some(o) = self.offset {
            parts.push(FormPart::uint("offset", o as u64));
        }
        if let Some(l) = self.limit {
            parts.push(FormPart::uint("limit", l as u64));
        }
        proof {
            assert(parts_view(parts@) =~= spec_list_torrents_query_parts(*self));
        }
        parts
    }
}

/// The query of the single-torrent status endpoint.
#[derive(Debug, Clone, Copy, PartialEq, Eq, Structural)]
pub struct TorrentStatusQuery {
    /// Bypass the cached data and always get fresh information.
    pub bypass_cache: bool,
    /// The torrent asked about; the reply is a bare object, not a list.
    pub id: u32,
}

impl TorrentStatusQuery {
    /// The query pairs this request serializes to.
    pub fn to_query_parts(&self) -> (r: Vec<FormPart>)
        ensures
            parts_view(r@) =~= seq![
                ("bypass_cache"@, FieldValueData::Flag(self.bypass_cache)),
                ("id"@, FieldValueData::UInt(self.id as u64)),
            ],
    {
        let mut parts: Vec<FormPart> = Vec::new();
        parts.push(FormPart::flag("bypass_cache", self.bypass_cache));
        parts.push(FormPart::uint("id", self.id as u64));
        parts
    }
}

/// The query of the torrent-info endpoint.
#[derive(Debug, Clone, PartialEq, Eq)]
pub struct TorrentInfoQuery {
    /// Hash of the torrent to get info for.
    pub hash: String,
    /// How long the service searches the network, in seconds.
    pub timeout: Option<u32>,
}

/// The query fields of a torrent-info request, in order, an absent
/// timeout skipped.
pub open spec fn spec_torrent_info_query_parts(q: TorrentInfoQuery) -> Seq<
    (Seq<char>, FieldValueData),
> {
    seq![("hash"@, FieldValueData::Text(q.hash@))] + (match q.timeout {
        Some(t) => seq![("timeout"@, FieldValueData::UInt(t as u64))],
        None => Seq::empty(),
    })
}

impl TorrentInfoQuery {
    /// The query pairs this request serializes to.
    pub fn to_query_parts(self) -> (r: Vec<FormPart>)
        ensures
            parts_view(r@) == spec_torrent_info_query_parts(self),
    {
        let mut parts: Vec<FormPart> = Vec::new();
        let timeout = self.timeout;
        parts.push(FormPart::text("hash", self.hash));
        if let Some(t) = timeout {
            parts.push(FormPart::uint("timeout", t as u64));
        }
        proof {
            assert(parts_view(parts@) =~= spec_torrent_info_query_parts(self));
        }
        parts
    }
}

/// The query of the torrent download-link endpoint.  The token rides in
/// the query because this endpoint is meant to be usable as a permalink.
#[derive(Debug, Clone, PartialEq, Eq)]
pub struct TorrentRequestLinkQuery {
    /// The bearer token, required in the URL on this endpoint.
    pub token: String,
    /// The torrent to download.
    pub torrent_id: u32,
    /// The file within the torrent to download.
    pub file_id: Option<u32>,
    /// Ask for a zip link; takes precedence over `file_id`.
    pub zip_link: bool,
    /// The user's IP, to pick the closest mirror.
    pub user_ip: Option<String>,
    /// Ask the service to answer with an HTTP redirect to the link.
    pub redirect: bool,
}

/// The query fields of a download-link request, in order, absent options
/// skipped.
pub open spec fn spec_request_link_query_parts(q: TorrentRequestLinkQuery) -> Seq<
    (Seq<char>, FieldValueData),
> {
    seq![("token"@, FieldValueData::Text(q.token@)),
        ("torrent_id"@, FieldValueData::UInt(q.torrent_id as u64))] + (match q.file_id {
        Some(f) => seq![("file_id"@, FieldValueData::UInt(f as u64))],
        None => Seq::empty(),
    }) + seq![("zip_link"@, FieldValueData::Flag(q.zip_link))] + (match q.user_ip {
        Some(ip) => seq![("user_ip"@, FieldValueData::Text(ip@))],
        None => Seq::empty(),
    }) + seq![("redirect"@, FieldValueData::Flag(q.redirect))]
}

impl TorrentRequestLinkQuery {
    /// The query pairs this request serializes to.
    pub fn to_query_parts(self) -> (r: Vec<FormPart>)
        ensures
            parts_view(r@) == spec_request_link_query_parts(self),
    {
        let mut parts: Vec<FormPart> = Vec::new();
        let TorrentRequestLinkQuery { token, torrent_id, file_id, zip_link, user_ip, redirect } =
            self;
        parts.push(FormPart::text("token", token));
        parts.push(FormPart::uint("torrent_id", torrent_id as u64));
        if let Some(f) = file_id {
            parts.push(FormPart::uint("file_id", f as u64));
        }
        parts.push(FormPart::flag("zip_link", zip_link));
        if let Some(ip) = user_ip {
            parts.push(FormPart::text("user_ip", ip));
        }
        parts.push(FormPart::flag("redirect", redirect));
        proof {
            assert(parts_view(parts@) =~= spec_request_link_query_parts(self));
        }
        parts
    }
}

/// The wire text of an export type.
pub open spec fn export_type_str(t: TorrentExportType) -> Seq<char> {
    match t {
        TorrentExportType::Magnet => "magnet"@,
        TorrentExportType::File => "file"@,
    }
}

/// The query of the export endpoint.
#[derive(Debug, Clone, Copy, PartialEq, Eq, Structural)]
pub struct TorrentExportDataQuery {
    /// The torrent whose data is exported.
    pub torrent_id: u32,
    /// What to export; the wire key of this field is `type`.
    pub data_type: TorrentExportType,
}

impl TorrentExportDataQuery {
    /// The query pairs this request serializes to.
    pub fn to_query_parts(&self) -> (r: Vec<FormPart>)
        ensures
            parts_view(r@) =~= seq![
                ("torrent_id"@, FieldValueData::UInt(self.torrent_id as u64)),
                ("type"@, FieldValueData::Text(export_type_str(self.data_type))),
            ],
    {
        let mut parts: Vec<FormPart> = Vec::new();
        parts.push(FormPart::uint("torrent_id", self.torrent_id as u64));
        let t: &'static str = match self.data_type {
            TorrentExportType::Magnet => "magnet",
            TorrentExportType::File => "file",
        };
        parts.push(FormPart::text("type", t.to_owned()));
        parts
    }
}

/// The create-torrent endpoint.
pub struct TorrentCreatePostEp;

impl TorrentCreatePostEp {
    /// The path of this endpoint.
    pub fn path() -> (r: &'static str)
        ensures
            r@ == "api/torrents/createtorrent"@,
    {
        "api/torrents/createtorrent"
    }

    /// The HTTP method of this endpoint.
    pub fn method() -> (r: HttpMethod)
        ensures
            r == HttpMethod::Post,
    {
        HttpMethod::Post
    }
}

/// The torrent-list endpoint.
pub struct ListTorrentsGetEp;

impl ListTorrentsGetEp {
    /// The path of this endpoint.
    pub fn path() -> (r: &'static str)
        ensures
            r@ == "api/torrents/mylist"@,
    {
        "api/torrents/mylist"
    }

    /// The HTTP method of this endpoint.
    pub fn method() -> (r: HttpMethod)
        ensures
            r == HttpMethod::Get,
    {
        HttpMethod::Get
    }
}

/// The single-torrent status endpoint; the same path as the list, with
/// an `id` filter, answered with a bare object.
pub struct TorrentStatusGetEp;

impl TorrentStatusGetEp {
    /// The path of this endpoint.
    pub fn path() -> (r: &'static str)
        ensures
            r@ == "api/torrents/mylist"@,
    {
        "api/torrents/mylist"
    }

    /// The HTTP method of this endpoint.
    pub fn method() -> (r: HttpMethod)
        ensures
            r == HttpMethod::Get,
    {
        HttpMethod::Get
    }
}

/// The torrent-info endpoint taking a JSON body.
pub struct TorrentInfoPostEp;

impl TorrentInfoPostEp {
    /// The path of this endpoint.
    pub fn path() -> (r: &'static str)
        ensures
            r@ == "api/torrents/torrentinfo"@,
    {
        "api/torrents/torrentinfo"
    }

    /// The HTTP method of this endpoint.
    pub fn method() -> (r: HttpMethod)
        ensures
            r == HttpMethod::Post,
    {
        HttpMethod::Post
    }
}

/// The torrent-info endpoint taking query parameters.
pub struct TorrentInfoGetEp;

impl TorrentInfoGetEp {
    /// The path of this endpoint.
    pub fn path() -> (r: &'static str)
        ensures
            r@ == "api/torrents/torrentinfo"@,
    {
        "api/torrents/torrentinfo"
    }

    /// The HTTP method of this endpoint.
    pub fn method() -> (r: HttpMethod)
        ensures
            r == HttpMethod::Get,
    {
        HttpMethod::Get
    }
}

/// The torrent-control endpoint.
pub struct TorrentControlPostEp;

impl TorrentControlPostEp {
    /// The path of this endpoint.
    pub fn path() -> (r: &'static str)
        ensures
            r@ == "api/torrents/controltorrent"@,
    {
        "api/torrents/controltorrent"
    }

    /// The HTTP method of this endpoint.
    pub fn method() -> (r: HttpMethod)
        ensures
            r == HttpMethod::Post,
    {
        HttpMethod::Post
    }
}

/// The torrent download-link endpoint.
pub struct TorrentRequestLinkGetEp;

impl TorrentRequestLinkGetEp {
    /// The path of this endpoint.
    pub fn path() -> (r: &'static str)
        ensures
            r@ == "api/torrents/requestdl"@,
    {
        "api/torrents/requestdl"
    }

    /// The HTTP method of this endpoint.
    pub fn method() -> (r: HttpMethod)
        ensures
            r == HttpMethod::Get,
    {
        HttpMethod::Get
    }
}

/// The export endpoint.
pub struct TorrentExportDataGetEp;

impl TorrentExportDataGetEp {
    /// The path of this endpoint.
    pub fn path() -> (r: &'static str)
        ensures
            r@ == "api/torrents/exportdata"@,
    {
        "api/torrents/exportdata"
    }

    /// The HTTP method of this endpoint.
    pub fn method() -> (r: HttpMethod)
        ensures
            r == HttpMethod::Get,
    {
        HttpMethod::Get
    }
}

} // verus!
