//! General service endpoints: liveness, statistics, changelogs and
//! speedtest files.

use vstd::prelude::*;
use crate::client::HttpMethod;
use crate::forms::{FieldValueData, FormPart, parts_view};

verus! {

/// The size of file a speedtest should use.
#[derive(Debug, Clone, Copy, PartialEq, Eq, Structural)]
pub enum FileLength {
    Long,
    Short,
}

/// The wire text of a speedtest file length.
pub open spec fn file_length_str(l: FileLength) -> Seq<char> {
    match l {
        FileLength::Long => "long"@,
        FileLength::Short => "short"@,
    }
}

/// The query of the speedtest endpoint.
#[derive(Debug, Clone, PartialEq, Eq)]
pub struct SpeedTestQuery {
    /// The size of the test file.
    pub test_length: Option<FileLength>,
    /// Which region's mirrors to return.
    pub region: Option<String>,
}

/// The query fields of a speedtest request, in order, absent options
/// skipped.
pub open spec fn spec_speedtest_query_parts(q: SpeedTestQuery) -> Seq<
    (Seq<char>, FieldValueData),
> {
    (match q.test_length {
        Some(l) => seq![("test_length"@, FieldValueData::Text(file_length_str(l)))],
        None => Seq::empty(),
    }) + (match q.region {
        Some(region) => seq![("region"@, FieldValueData::Text(region@))],
        None => Seq::empty(),
    })
}

impl SpeedTestQuery {
    /// The query pairs this request serializes to.
    pub fn to_query_parts(self) -> (r: Vec<FormPart>)
        ensures
            parts_view(r@) == spec_speedtest_query_parts(self),
    {
        let mut parts: Vec<FormPart> = Vec::new();
        if let Some(l) = self.test_length {
            let t: &'static str = match l {
                FileLength::Long => "long",
                FileLength::Short => "short",
            };
            parts.push(FormPart::text("test_length", t.to_owned()));
        }
        match self.region {
            Some(region) => parts.push(FormPart::text("region", region)),
            None => (),
        }
        proof {
            assert(parts_view(parts@) =~= spec_speedtest_query_parts(self));
        }
        parts
    }
}

/// The liveness endpoint, at the bare service root.
pub struct GetUpStatusEp;

impl GetUpStatusEp {
    /// The path of this endpoint.
    pub fn path() -> (r: &'static str)
        ensures
            r@ == ""@,
    {
        ""
    }

    /// The HTTP method of this endpoint.
    pub fn method() -> (r: HttpMethod)
        ensures
            r == HttpMethod::Get,
    {
        HttpMethod::Get
    }
}

/// The statistics endpoint.
pub struct GetStatsEp;

impl GetStatsEp {
    /// The path of this endpoint.
    pub fn path() -> (r: &'static str)
        ensures
            r@ == "api/stats"@,
    {
        "api/stats"
    }

    /// The HTTP method of this endpoint.
    pub fn method() -> (r: HttpMethod)
        ensures
            r == HttpMethod::Get,
    {
        HttpMethod::Get
    }
}

/// The changelog feed endpoint, answered as RSS text rather than an
/// envelope.
pub struct GetChangelogRssFeedEp;

impl GetChangelogRssFeedEp {
    /// The path of this endpoint.
    pub fn path() -> (r: &'static str)
        ensures
            r@ == "api/changelogs/rss"@,
    {
        "api/changelogs/rss"
    }

    /// The HTTP method of this endpoint.
    pub fn method() -> (r: HttpMethod)
        ensures
            r == HttpMethod::Get,
    {
        HttpMethod::Get
    }
}

/// The changelog endpoint answered as JSON.
pub struct GetChangelogJsonVersionsEp;

impl GetChangelogJsonVersionsEp {
    /// The path of this endpoint.
    pub fn path() -> (r: &'static str)
        ensures
            r@ == "api/changelogs/json"@,
    {
        "api/changelogs/json"
    }

    /// The HTTP method of this endpoint.
    pub fn method() -> (r: HttpMethod)
        ensures
            r == HttpMethod::Get,
    {
        HttpMethod::Get
    }
}

/// The speedtest-files endpoint.
pub struct GetSpeedtestFilesEp;

impl GetSpeedtestFilesEp {
    /// The path of this endpoint.
    pub fn path() -> (r: &'static str)
        ensures
            r@ == "api/speedtest"@,
    {
        "api/speedtest"
    }

    /// The HTTP method of this endpoint.
    pub fn method() -> (r: HttpMethod)
        ensures
            r == HttpMethod::Get,
    {
        HttpMethod::Get
    }
}

} // verus!
