//! The payload of a create-torrent reply: an untyped union on the wire,
//! decoded by trying each shape in a fixed order.
//!
//! The service answers a creation request with whichever of several
//! object shapes applies — the created torrent, one of three limit
//! notices — or a bare message, or nothing.  The wire carries no tag, so
//! decoding attempts the narrowest shape first and falls back
//! progressively, failing only when no attempt matches.

use vstd::prelude::*;
use crate::data::{ActiveLimitStatus, CooldownLimitData, CooldownLimitStatus, MonthlyLimitStatus,
    TorrentCreationData, TorrentCreationResponse, cooldown_view, creation_view,
    spec_active_limit_of, spec_cooldown_limit_of, spec_creation_of, spec_monthly_limit_of};
use crate::json::{JsonData, JsonVal, jview};

verus! {

/// What a create-torrent reply's data can be.
#[derive(Debug, Clone, PartialEq, Eq)]
pub enum TorrentCreatePayload {
    /// The torrent was created.
    Created(TorrentCreationResponse),
    /// The account hit its active-download limit.
    ActiveLimit(ActiveLimitStatus),
    /// The account hit its monthly limit.
    MonthlyLimit(MonthlyLimitStatus),
    /// The account is on download cooldown.
    CooldownLimit(CooldownLimitStatus),
    /// A bare informational message.
    Message(String),
    /// No payload at all.
    Empty,
}

/// The mathematical value of a [`TorrentCreatePayload`].
pub enum TorrentCreateData {
    Created(TorrentCreationData),
    ActiveLimit(ActiveLimitStatus),
    MonthlyLimit(MonthlyLimitStatus),
    CooldownLimit(CooldownLimitData),
    Message(Seq<char>),
    Empty,
}

/// The mathematical value of a [`TorrentCreatePayload`].
pub open spec fn create_payload_view(p: TorrentCreatePayload) -> TorrentCreateData {
    match p {
        TorrentCreatePayload::Created(c) => TorrentCreateData::Created(creation_view(c)),
        TorrentCreatePayload::ActiveLimit(a) => TorrentCreateData::ActiveLimit(a),
        TorrentCreatePayload::MonthlyLimit(m) => TorrentCreateData::MonthlyLimit(m),
        TorrentCreatePayload::CooldownLimit(c) => TorrentCreateData::CooldownLimit(
            cooldown_view(c),
        ),
        TorrentCreatePayload::Message(m) => TorrentCreateData::Message(m@),
        TorrentCreatePayload::Empty => TorrentCreateData::Empty,
    }
}

/// Decoding a create-torrent payload, each shape tried in order: the
/// created torrent first, then the three limit notices, then a bare
/// message string, then the empty payload.
pub open spec fn spec_create_payload_of(d: JsonData) -> Option<TorrentCreateData> {
    if spec_creation_of(d) is Some {
        Some(TorrentCreateData::Created(spec_creation_of(d)->Some_0))
    } else if spec_active_limit_of(d) is Some {
        Some(TorrentCreateData::ActiveLimit(spec_active_limit_of(d)->Some_0))
    } else if spec_monthly_limit_of(d) is Some {
        Some(TorrentCreateData::MonthlyLimit(spec_monthly_limit_of(d)->Some_0))
    } else if spec_cooldown_limit_of(d) is Some {
        Some(TorrentCreateData::CooldownLimit(spec_cooldown_limit_of(d)->Some_0))
    } else {
        match d {
            JsonData::Str(s) => Some(TorrentCreateData::Message(s)),
            JsonData::Null => Some(TorrentCreateData::Empty),
            _ => None,
        }
    }
}

impl TorrentCreatePayload {
    /// Decodes a create-torrent payload from the `data` document of an
    /// envelope, trying each shape in the fixed order.
    pub fn from_json(j: &JsonVal) -> (r: Option<TorrentCreatePayload>)
        ensures
            match r {
                Some(p) => spec_create_payload_of(jview(*j)) == Some(create_payload_view(p)),
                None => spec_create_payload_of(jview(*j)) is None,
            },
    {
        if let Some(c) = TorrentCreationResponse::from_json(j) {
            return Some(TorrentCreatePayload::Created(c));
        }
        if let Some(a) = ActiveLimitStatus::from_json(j) {
            return Some(TorrentCreatePayload::ActiveLimit(a));
        }
        if let Some(m) = MonthlyLimitStatus::from_json(j) {
            return Some(TorrentCreatePayload::MonthlyLimit(m));
        }
        if let Some(c) = CooldownLimitStatus::from_json(j) {
            return Some(TorrentCreatePayload::CooldownLimit(c));
        }
        match j {
            JsonVal::Str(s) => Some(TorrentCreatePayload::Message(s.clone())),
            JsonVal::Null => Some(TorrentCreatePayload::Empty),
            _ => None,
        }
    }
}

} // verus!
