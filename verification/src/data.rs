//! Plain response payloads, and verified decoders for the ones the
//! envelope's `data` field carries in the scenarios this library covers.

use vstd::prelude::*;
use crate::json::{JsonData, JsonVal, fields_view, jview, obj_get, spec_field_get};

verus! {

/// What the service answers when a torrent is created.
#[derive(Debug, Clone, PartialEq, Eq)]
pub struct TorrentCreationResponse {
    pub id: u64,
    pub auth_id: String,
    pub hash: String,
}

/// The mathematical value of a [`TorrentCreationResponse`].
pub struct TorrentCreationData {
    pub id: u64,
    pub auth_id: Seq<char>,
    pub hash: Seq<char>,
}

/// The mathematical value of a [`TorrentCreationResponse`].
pub open spec fn creation_view(t: TorrentCreationResponse) -> TorrentCreationData {
    TorrentCreationData { id: t.id, auth_id: t.auth_id@, hash: t.hash@ }
}

/// Decoding a creation response from a JSON document: an object whose
/// `id` is an unsigned number and whose `auth_id` and `hash` are
/// strings.
pub open spec fn spec_creation_of(d: JsonData) -> Option<TorrentCreationData> {
    match d {
        JsonData::Obj(fields) => {
            let id = spec_field_get(fields, "id"@);
            let auth_id = spec_field_get(fields, "auth_id"@);
            let hash = spec_field_get(fields, "hash"@);
            if id matches Some(JsonData::UInt(_)) && auth_id matches Some(JsonData::Str(_))
                && hash matches Some(JsonData::Str(_)) {
                Some(
                    TorrentCreationData {
                        id: id->Some_0->UInt_0,
                        auth_id: auth_id->Some_0->Str_0,
                        hash: hash->Some_0->Str_0,
                    },
                )
            } else {
                None
            }
        },
        _ => None,
    }
}

impl TorrentCreationResponse {
    /// Decodes a creation response from the `data` document of an
    /// envelope.
    pub fn from_json(j: &JsonVal) -> (r: Option<TorrentCreationResponse>)
        ensures
            match r {
                Some(t) => spec_creation_of(jview(*j)) == Some(creation_view(t)),
                None => spec_creation_of(jview(*j)) is None,
            },
    {
        match j {
            JsonVal::Obj(fields) => {
                let id: u64 = match obj_get(fields, "id") {
                    Some(JsonVal::UInt(u)) => *u,
                    _ => {
                        return None;
                    },
                };
                let auth_id: String = match obj_get(fields, "auth_id") {
                    Some(JsonVal::Str(s)) => s.clone(),
                    _ => {
                        return None;
                    },
                };
                let hash: String = match obj_get(fields, "hash") {
                    Some(JsonVal::Str(s)) => s.clone(),
                    _ => {
                        return None;
                    },
                };
                Some(TorrentCreationResponse { id, auth_id, hash })
            },
            _ => None,
        }
    }
}

/// What the service answers when a web download is created.
#[derive(Debug, Clone, PartialEq, Eq)]
pub struct WebDownloadCreationResponse {
    pub hash: String,
    pub webdownload_id: String,
    pub auth_id: String,
}

/// The mathematical value of a [`WebDownloadCreationResponse`].
pub struct WebDownloadCreationData {
    pub hash: Seq<char>,
    pub webdownload_id: Seq<char>,
    pub auth_id: Seq<char>,
}

/// The mathematical value of a [`WebDownloadCreationResponse`].
pub open spec fn webdl_creation_view(t: WebDownloadCreationResponse) -> WebDownloadCreationData {
    WebDownloadCreationData { hash: t.hash@, webdownload_id: t.webdownload_id@, auth_id: t.auth_id@ }
}

/// Decoding a web-download creation response: an object whose `hash`,
/// `webdownload_id` and `auth_id` are strings.
pub open spec fn spec_webdl_creation_of(d: JsonData) -> Option<WebDownloadCreationData> {
    match d {
        JsonData::Obj(fields) => {
            let hash = spec_field_get(fields, "hash"@);
            let webdownload_id = spec_field_get(fields, "webdownload_id"@);
            let auth_id = spec_field_get(fields, "auth_id"@);
            if hash matches Some(JsonData::Str(_)) && webdownload_id matches Some(JsonData::Str(_))
                && auth_id matches Some(JsonData::Str(_)) {
                Some(
                    WebDownloadCreationData {
                        hash: hash->Some_0->Str_0,
                        webdownload_id: webdownload_id->Some_0->Str_0,
                        auth_id: auth_id->Some_0->Str_0,
                    },
                )
            } else {
                None
            }
        },
        _ => None,
    }
}

impl WebDownloadCreationResponse {
    /// Decodes a web-download creation response from the `data`
    /// document of an envelope.
    pub fn from_json(j: &JsonVal) -> (r: Option<WebDownloadCreationResponse>)
        ensures
            match r {
                Some(t) => spec_webdl_creation_of(jview(*j)) == Some(webdl_creation_view(t)),
                None => spec_webdl_creation_of(jview(*j)) is None,
            },
    {
        match j {
            JsonVal::Obj(fields) => {
                let hash: String = match obj_get(fields, "hash") {
                    Some(JsonVal::Str(s)) => s.clone(),
                    _ => {
                        return None;
                    },
                };
                let webdownload_id: String = match obj_get(fields, "webdownload_id") {
                    Some(JsonVal::Str(s)) => s.clone(),
                    _ => {
                        return None;
                    },
                };
                let auth_id: String = match obj_get(fields, "auth_id") {
                    Some(JsonVal::Str(s)) => s.clone(),
                    _ => {
                        return None;
                    },
                };
                Some(WebDownloadCreationResponse { hash, webdownload_id, auth_id })
            },
            _ => None,
        }
    }
}

/// The account's active-download limit and use.
#[derive(Debug, Clone, Copy, PartialEq, Eq, Structural)]
pub struct ActiveLimitStatus {
    pub active_limit: u64,
    pub current_active_downloads: u64,
}

/// Decoding an active-limit payload: an object whose two fields are
/// unsigned numbers.
pub open spec fn spec_active_limit_of(d: JsonData) -> Option<ActiveLimitStatus> {
    match d {
        JsonData::Obj(fields) => {
            let active_limit = spec_field_get(fields, "active_limit"@);
            let current = spec_field_get(fields, "current_active_downloads"@);
            if active_limit matches Some(JsonData::UInt(_)) && current matches Some(
                JsonData::UInt(_),
            ) {
                Some(
                    ActiveLimitStatus {
                        active_limit: active_limit->Some_0->UInt_0,
                        current_active_downloads: current->Some_0->UInt_0,
                    },
                )
            } else {
                None
            }
        },
        _ => None,
    }
}

impl ActiveLimitStatus {
    /// Decodes an active-limit payload from a JSON document.
    pub fn from_json(j: &JsonVal) -> (r: Option<ActiveLimitStatus>)
        ensures
            r == spec_active_limit_of(jview(*j)),
    {
        match j {
            JsonVal::Obj(fields) => {
                let active_limit: u64 = match obj_get(fields, "active_limit") {
                    Some(JsonVal::UInt(u)) => *u,
                    _ => {
                        return None;
                    },
                };
                let current: u64 = match obj_get(fields, "current_active_downloads") {
                    Some(JsonVal::UInt(u)) => *u,
                    _ => {
                        return None;
                    },
                };
                Some(ActiveLimitStatus { active_limit, current_active_downloads: current })
            },
            _ => None,
        }
    }
}

/// The account's monthly limit and use.
#[derive(Debug, Clone, Copy, PartialEq, Eq, Structural)]
pub struct MonthlyLimitStatus {
    pub monthly_limit: u64,
    pub current_downloads: u64,
}

/// Decoding a monthly-limit payload: an object whose two fields are
/// unsigned numbers.
pub open spec fn spec_monthly_limit_of(d: JsonData) -> Option<MonthlyLimitStatus> {
    match d {
        JsonData::Obj(fields) => {
            let monthly_limit = spec_field_get(fields, "monthly_limit"@);
            let current = spec_field_get(fields, "current_downloads"@);
            if monthly_limit matches Some(JsonData::UInt(_)) && current matches Some(
                JsonData::UInt(_),
            ) {
                Some(
                    MonthlyLimitStatus {
                        monthly_limit: monthly_limit->Some_0->UInt_0,
                        current_downloads: current->Some_0->UInt_0,
                    },
                )
            } else {
                None
            }
        },
        _ => None,
    }
}

impl MonthlyLimitStatus {
    /// Decodes a monthly-limit payload from a JSON document.
    pub fn from_json(j: &JsonVal) -> (r: Option<MonthlyLimitStatus>)
        ensures
            r == spec_monthly_limit_of(jview(*j)),
    {
        match j {
            JsonVal::Obj(fields) => {
                let monthly_limit: u64 = match obj_get(fields, "monthly_limit") {
                    Some(JsonVal::UInt(u)) => *u,
                    _ => {
                        return None;
                    },
                };
                let current: u64 = match obj_get(fields, "current_downloads") {
                    Some(JsonVal::UInt(u)) => *u,
                    _ => {
                        return None;
                    },
                };
                Some(MonthlyLimitStatus { monthly_limit, current_downloads: current })
            },
            _ => None,
        }
    }
}

/// The account's download cooldown, both ends as the timestamp text the
/// wire carries.
#[derive(Debug, Clone, PartialEq, Eq)]
pub struct CooldownLimitStatus {
    pub cooldown_until: String,
    pub current_time: String,
}

/// The mathematical value of a [`CooldownLimitStatus`].
pub struct CooldownLimitData {
    pub cooldown_until: Seq<char>,
    pub current_time: Seq<char>,
}

/// The mathematical value of a [`CooldownLimitStatus`].
pub open spec fn cooldown_view(c: CooldownLimitStatus) -> CooldownLimitData {
    CooldownLimitData { cooldown_until: c.cooldown_until@, current_time: c.current_time@ }
}

/// Decoding a cooldown payload: an object whose two fields are
/// timestamp strings.
pub open spec fn spec_cooldown_limit_of(d: JsonData) -> Option<CooldownLimitData> {
    match d {
        JsonData::Obj(fields) => {
            let until = spec_field_get(fields, "cooldown_until"@);
            let now = spec_field_get(fields, "current_time"@);
            if until matches Some(JsonData::Str(_)) && now matches Some(JsonData::Str(_)) {
                Some(
                    CooldownLimitData {
                        cooldown_until: until->Some_0->Str_0,
                        current_time: now->Some_0->Str_0,
                    },
                )
            } else {
                None
            }
        },
        _ => None,
    }
}

impl CooldownLimitStatus {
    /// Decodes a cooldown payload from a JSON document.
    pub fn from_json(j: &JsonVal) -> (r: Option<CooldownLimitStatus>)
        ensures
            match r {
                Some(c) => spec_cooldown_limit_of(jview(*j)) == Some(cooldown_view(c)),
                None => spec_cooldown_limit_of(jview(*j)) is None,
            },
    {
        match j {
            JsonVal::Obj(fields) => {
                let cooldown_until: String = match obj_get(fields, "cooldown_until") {
                    Some(JsonVal::Str(s)) => s.clone(),
                    _ => {
                        return None;
                    },
                };
                let current_time: String = match obj_get(fields, "current_time") {
                    Some(JsonVal::Str(s)) => s.clone(),
                    _ => {
                        return None;
                    },
                };
                Some(CooldownLimitStatus { cooldown_until, current_time })
            },
            _ => None,
        }
    }
}

/// Looking up an optional unsigned field: absent or `null` is `None`; an
/// unsigned number is its value; anything else is malformed (the outer
/// `None`).
pub open spec fn spec_opt_u64_field(
    fields: Seq<(Seq<char>, JsonData)>,
    key: Seq<char>,
) -> Option<Option<u64>> {
    match spec_field_get(fields, key) {
        None => Some(None),
        Some(JsonData::Null) => Some(None),
        Some(JsonData::UInt(u)) => Some(Some(u)),
        Some(_) => None,
    }
}

/// Reads an optional unsigned field of an object.
fn opt_u64_field(fields: &Vec<(String, JsonVal)>, key: &str) -> (r: Result<Option<u64>, ()>)
    ensures
        match r {
            Ok(v) => spec_opt_u64_field(fields_view(fields@), key@) == Some(v),
            Err(_) => spec_opt_u64_field(fields_view(fields@), key@) is None,
        },
{
    match obj_get(fields, key) {
        None => Ok(None),
        Some(JsonVal::Null) => Ok(None),
        Some(JsonVal::UInt(u)) => Ok(Some(*u)),
        Some(_) => Err(()),
    }
}

/// Service-wide statistics; every count is optional on the wire.
#[derive(Debug, Clone, Copy, PartialEq, Eq, Structural)]
pub struct TorboxGeneralStats {
    pub total_downloads: Option<u64>,
    pub total_users: Option<u64>,
    pub total_bytes_downloaded: Option<u64>,
    pub total_bytes_uploaded: Option<u64>,
    pub active_torrents: Option<u64>,
    pub active_usenet_downloads: Option<u64>,
    pub active_web_downloads: Option<u64>,
    pub total_usenet_downloads: Option<u64>,
    pub total_torrent_downloads: Option<u64>,
    pub total_web_downloads: Option<u64>,
    pub total_servers: Option<u64>,
}

/// Decoding the statistics payload: an object each of whose known fields
/// is absent, `null`, or an unsigned number.
pub open spec fn spec_stats_of(d: JsonData) -> Option<TorboxGeneralStats> {
    match d {
        JsonData::Obj(fields) => {
            let total_downloads = spec_opt_u64_field(fields, "total_downloads"@);
            let total_users = spec_opt_u64_field(fields, "total_users"@);
            let total_bytes_downloaded = spec_opt_u64_field(fields, "total_bytes_downloaded"@);
            let total_bytes_uploaded = spec_opt_u64_field(fields, "total_bytes_uploaded"@);
            let active_torrents = spec_opt_u64_field(fields, "active_torrents"@);
            let active_usenet_downloads = spec_opt_u64_field(fields, "active_usenet_downloads"@);
            let active_web_downloads = spec_opt_u64_field(fields, "active_web_downloads"@);
            let total_usenet_downloads = spec_opt_u64_field(fields, "total_usenet_downloads"@);
            let total_torrent_downloads = spec_opt_u64_field(fields, "total_torrent_downloads"@);
            let total_web_downloads = spec_opt_u64_field(fields, "total_web_downloads"@);
            let total_servers = spec_opt_u64_field(fields, "total_servers"@);
            if total_downloads is Some && total_users is Some && total_bytes_downloaded is Some
                && total_bytes_uploaded is Some && active_torrents is Some
                && active_usenet_downloads is Some && active_web_downloads is Some
                && total_usenet_downloads is Some && total_torrent_downloads is Some
                && total_web_downloads is Some && total_servers is Some {
                Some(
                    TorboxGeneralStats {
                        total_downloads: total_downloads->Some_0,
                        total_users: total_users->Some_0,
                        total_bytes_downloaded: total_bytes_downloaded->Some_0,
                        total_bytes_uploaded: total_bytes_uploaded->Some_0,
                        active_torrents: active_torrents->Some_0,
                        active_usenet_downloads: active_usenet_downloads->Some_0,
                        active_web_downloads: active_web_downloads->Some_0,
                        total_usenet_downloads: total_usenet_downloads->Some_0,
                        total_torrent_downloads: total_torrent_downloads->Some_0,
                        total_web_downloads: total_web_downloads->Some_0,
                        total_servers: total_servers->Some_0,
                    },
                )
            } else {
                None
            }
        },
        _ => None,
    }
}

impl TorboxGeneralStats {
    /// Decodes the statistics payload from the `data` document of an
    /// envelope.
    pub fn from_json(j: &JsonVal) -> (r: Option<TorboxGeneralStats>)
        ensures
            match r {
                Some(t) => spec_stats_of(jview(*j)) == Some(t),
                None => spec_stats_of(jview(*j)) is None,
            },
    {
        match j {
            JsonVal::Obj(fields) => {
                let total_downloads = match opt_u64_field(fields, "total_downloads") {
                    Ok(v) => v,
                    Err(_) => {
                        return None;
                    },
                };
                let total_users = match opt_u64_field(fields, "total_users") {
                    Ok(v) => v,
                    Err(_) => {
                        return None;
                    },
                };
                let total_bytes_downloaded = match opt_u64_field(fields, "total_bytes_downloaded") {
                    Ok(v) => v,
                    Err(_) => {
                        return None;
                    },
                };
                let total_bytes_uploaded = match opt_u64_field(fields, "total_bytes_uploaded") {
                    Ok(v) => v,
                    Err(_) => {
                        return None;
                    },
                };
                let active_torrents = match opt_u64_field(fields, "active_torrents") {
                    Ok(v) => v,
                    Err(_) => {
                        return None;
                    },
                };
                let active_usenet_downloads = match opt_u64_field(
                    fields,
                    "active_usenet_downloads",
                ) {
                    Ok(v) => v,
                    Err(_) => {
                        return None;
                    },
                };
                let active_web_downloads = match opt_u64_field(fields, "active_web_downloads") {
                    Ok(v) => v,
                    Err(_) => {
                        return None;
                    },
                };
                let total_usenet_downloads = match opt_u64_field(fields, "total_usenet_downloads") {
                    Ok(v) => v,
                    Err(_) => {
                        return None;
                    },
                };
                let total_torrent_downloads = match opt_u64_field(
                    fields,
                    "total_torrent_downloads",
                ) {
                    Ok(v) => v,
                    Err(_) => {
                        return None;
                    },
                };
                let total_web_downloads = match opt_u64_field(fields, "total_web_downloads") {
                    Ok(v) => v,
                    Err(_) => {
                        return None;
                    },
                };
                let total_servers = match opt_u64_field(fields, "total_servers") {
                    Ok(v) => v,
                    Err(_) => {
                        return None;
                    },
                };
                Some(
                    TorboxGeneralStats {
                        total_downloads,
                        total_users,
                        total_bytes_downloaded,
                        total_bytes_uploaded,
                        active_torrents,
                        active_usenet_downloads,
                        active_web_downloads,
                        total_usenet_downloads,
                        total_torrent_downloads,
                        total_web_downloads,
                        total_servers,
                    },
                )
            },
            _ => None,
        }
    }
}

/// One file of a web download.
#[derive(Debug, Clone, PartialEq, Eq)]
pub struct WebDownloadFile {
    pub id: u64,
    pub md5: String,
    pub s3_path: String,
    pub name: String,
    pub size: u64,
    pub mimetype: String,
    pub short_name: String,
}

/// One hoster the service can download from.
#[derive(Debug, Clone, PartialEq, Eq)]
pub struct HosterInfo {
    pub name: String,
    pub domains: Vec<String>,
    pub url: String,
    pub icon: String,
    pub status: bool,
    pub kind: String,
    pub note: Option<String>,
    pub daily_link_limit: u64,
    pub daily_link_used: u64,
    pub daily_bandwidth_limit: u64,
    pub daily_bandwidth_used: u64,
    pub limit: Option<u64>,
}

/// All states a torrent can be in.
#[derive(Debug, Clone, Copy, PartialEq, Eq, Structural)]
pub enum TorrentDownloadState {
    /// Some error occurred, applies to paused torrents.
    Error,
    /// Torrent data files are missing.
    MissingFiles,
    /// Torrent is being seeded and data is being transferred.
    Uploading,
    /// Torrent is being seeded, but no connection was made.
    UploadingNoPeers,
    /// Torrent is paused and has finished downloading.
    PausedUploading,
    /// Queuing is enabled and torrent is queued for upload.
    QueuedUploading,
    /// Torrent has finished downloading and is being checked.
    CheckingUploading,
    /// Torrent is forced to upload, ignoring the queue limit.
    ForcedUploading,
    /// Torrent is being downloaded and data is being transferred.
    Downloading,
    /// Torrent has just started and is fetching metadata.
    MetaDl,
    /// Torrent is paused and has not finished downloading.
    PausedDownloading,
    /// Queuing is enabled and torrent is queued for download.
    QueuedDownloading,
    /// Torrent is being downloaded, but no connection was made.
    StalledDownloading,
    /// Torrent is being checked and has not finished downloading.
    CheckingDownloading,
    /// Torrent is forced to download, ignoring the queue limit.
    ForcedDownloading,
    /// Torrent is allocating disk space.
    Allocating,
    /// Resume data is being checked.
    CheckingResumeData,
    /// Torrent is moving to another location.
    Moving,
    /// Unknown status.
    Unknown,
    /// Torrent has completed downloading.
    Completed,
    /// Torrent has expired.
    Expired,
    /// Torrent is cached.
    Cached,
    /// Torrent is stalled with no seeds.
    StalledNoSeeds,
    /// Torrent is paused.
    Paused,
}

} // verus!
