//! Web-download requests: bodies, queries and endpoints.

use vstd::prelude::*;
use crate::client::HttpMethod;
use crate::forms::{FieldValueData, FormPart, parts_view};

verus! {

/// Which web downloads a control request addresses.
#[derive(Debug, Clone, Copy, PartialEq, Eq, Structural)]
pub enum WebdownloadControlSource {
    /// One web download, by its id.
    WebdlId(u32),
    /// Every web download of the account.
    All(bool),
}

/// An operation on a web download.
#[derive(Debug, Clone, Copy, PartialEq, Eq, Structural)]
pub enum WebdownloadOperation {
    /// Deletes the web download permanently.
    Delete,
}

/// A request to create a web download, sent as a multipart form.
#[derive(Debug, Clone, PartialEq, Eq)]
pub struct WebdownloadCreateBody {
    /// The link to download.
    pub link: String,
    /// The password of the link, if it has one.
    pub password: Option<String>,
    /// The name the download should get.
    pub name: Option<String>,
    /// Whether the download should be queued instantly.
    pub as_queued: Option<bool>,
    /// Only add the download if the service already has it cached.
    pub add_only_if_cached: Option<bool>,
}

/// The form fields a create-web-download body serializes to, in order:
/// the link always, then `name`, `password`, `as_queued` and
/// `add_only_if_cached`, each only when set.
pub open spec fn spec_webdownload_create_parts(b: WebdownloadCreateBody) -> Seq<
    (Seq<char>, FieldValueData),
> {
    seq![("link"@, FieldValueData::Text(b.link@))] + (match b.name {
        Some(n) => seq![("name"@, FieldValueData::Text(n@))],
        None => Seq::empty(),
    }) + (match b.password {
        Some(p) => seq![("password"@, FieldValueData::Text(p@))],
        None => Seq::empty(),
    }) + (match b.as_queued {
        Some(q) => seq![("as_queued"@, FieldValueData::Flag(q))],
        None => Seq::empty(),
    }) + (match b.add_only_if_cached {
        Some(c) => seq![("add_only_if_cached"@, FieldValueData::Flag(c))],
        None => Seq::empty(),
    })
}

impl WebdownloadCreateBody {
    /// The multipart form this body is sent as.
    pub fn to_form_parts(self) -> (r: Vec<FormPart>)
        ensures
            parts_view(r@) == spec_webdownload_create_parts(self),
    {
        let mut parts: Vec<FormPart> = Vec::new();
        let WebdownloadCreateBody { link, password, name, as_queued, add_only_if_cached } = self;
        parts.push(FormPart::text("link", link));
        if let Some(n) = name {
            parts.push(FormPart::text("name", n));
        }
        if let Some(p) = password {
            parts.push(FormPart::text("password", p));
        }
        if let Some(q) = as_queued {
            parts.push(FormPart::flag("as_queued", q));
        }
        if let Some(c) = add_only_if_cached {
            parts.push(FormPart::flag("add_only_if_cached", c));
        }
        proof {
            assert(parts_view(parts@) =~= spec_webdownload_create_parts(self));
        }
        parts
    }
}

/// The body of a control request: which downloads, and what to do.
#[derive(Debug, Clone, Copy, PartialEq, Eq, Structural)]
pub struct WebdownloadControlBody {
    /// One web download by id, or all of them.
    pub source: WebdownloadControlSource,
    /// The operation to perform.
    pub operation: WebdownloadOperation,
}

/// The query of a control request.
#[derive(Debug, Clone, Copy, PartialEq, Eq, Structural)]
pub struct WebdownloadControlQuery {
    /// Bypass the cached data.
    pub bypass_cache: bool,
}

/// A whole control request, as a caller states it; the wire splits it
/// into a query and a JSON body.
#[derive(Debug, Clone, Copy, PartialEq, Eq, Structural)]
pub struct WebdownloadControlReq {
    /// One web download by id, or all of them.
    pub source: WebdownloadControlSource,
    /// The operation to perform.
    pub operation: WebdownloadOperation,
    /// Bypass the cached data.
    pub bypass_cache: bool,
}

impl WebdownloadControlReq {
    /// Splits the request into the query and the body the wire wants.
    pub fn into_parts(self) -> (r: (WebdownloadControlQuery, WebdownloadControlBody))
        ensures
            r.0 == (WebdownloadControlQuery { bypass_cache: self.bypass_cache }),
            r.1 == (WebdownloadControlBody { source: self.source, operation: self.operation }),
    {
        (
            WebdownloadControlQuery { bypass_cache: self.bypass_cache },
            WebdownloadControlBody { source: self.source, operation: self.operation },
        )
    }
}

/// The query of the web-download link endpoint.  The token rides in the
/// query because this endpoint is meant to be usable as a permalink.
#[derive(Debug, Clone, PartialEq, Eq)]
pub struct WebdownloadRequestLinkQuery {
    /// The bearer token, required in the URL on this endpoint.
    pub token: String,
    /// The web download to fetch.
    pub web_id: u32,
    /// The files within the download to fetch.
    pub files_id: Option<Vec<u32>>,
    /// Ask for a zip link; takes precedence over `files_id`.
    pub zip_link: bool,
    /// The user's IP, to pick the closest mirror.
    pub user_ip: Option<String>,
    /// Ask the service to answer with an HTTP redirect to the link.
    pub redirect: bool,
}

/// The query fields of a web-download link request, in order, absent
/// options skipped.  The file list is sent as one field per id, all
/// named `files_id`.
pub open spec fn spec_webdl_request_link_query_parts(q: WebdownloadRequestLinkQuery) -> Seq<
    (Seq<char>, FieldValueData),
> {
    seq![("token"@, FieldValueData::Text(q.token@)),
        ("web_id"@, FieldValueData::UInt(q.web_id as u64))] + (match q.files_id {
        Some(ids) => Seq::new(ids@.len(), |i: int| ("files_id"@, FieldValueData::UInt(ids@[i] as u64))),
        None => Seq::empty(),
    }) + seq![("zip_link"@, FieldValueData::Flag(q.zip_link))] + (match q.user_ip {
        Some(ip) => seq![("user_ip"@, FieldValueData::Text(ip@))],
        None => Seq::empty(),
    }) + seq![("redirect"@, FieldValueData::Flag(q.redirect))]
}

impl WebdownloadRequestLinkQuery {
    /// The query pairs this request serializes to.
    pub fn to_query_parts(self) -> (r: Vec<FormPart>)
        ensures
            parts_view(r@) == spec_webdl_request_link_query_parts(self),
    {
        let mut parts: Vec<FormPart> = Vec::new();
        let WebdownloadRequestLinkQuery { token, web_id, files_id, zip_link, user_ip, redirect } =
            self;
        parts.push(FormPart::text("token", token));
        parts.push(FormPart::uint("web_id", web_id as u64));
        if let Some(ids) = files_id {
            let n = ids.len();
            let mut i: usize = 0;
            while i < n
                invariant
                    i <= n == ids@.len(),
                    parts@.len() == i + 2,
                    parts_view(parts@) =~= seq![
                        ("token"@, FieldValueData::Text(self.token@)),
                        ("web_id"@, FieldValueData::UInt(self.web_id as u64)),
                    ] + Seq::new(
                        i as nat,
                        |k: int| ("files_id"@, FieldValueData::UInt(ids@[k] as u64)),
                    ),
                decreases n - i,
            {
                let ghost before = parts@;
                parts.push(FormPart::uint("files_id", ids[i] as u64));
                proof {
                    assert(parts@ =~= before.push(parts@[before.len() as int]));
                    assert(parts_view(parts@) =~= parts_view(before).push(
                        ("files_id"@, FieldValueData::UInt(ids@[i as int] as u64)),
                    ));
                    assert(parts_view(parts@) =~= seq![
                        ("token"@, FieldValueData::Text(self.token@)),
                        ("web_id"@, FieldValueData::UInt(self.web_id as u64)),
                    ] + Seq::new(
                        (i + 1) as nat,
                        |k: int| ("files_id"@, FieldValueData::UInt(ids@[k] as u64)),
                    ));
                }
                i = i + 1;
            }
        }
        parts.push(FormPart::flag("zip_link", zip_link));
        if let Some(ip) = user_ip {
            parts.push(FormPart::text("user_ip", ip));
        }
        parts.push(FormPart::flag("redirect", redirect));
        proof {
            assert(parts_view(parts@) =~= spec_webdl_request_link_query_parts(self));
        }
        parts
    }
}

/// The query of the list endpoint.  The `id` filter is left out on
/// purpose: with it the service answers with a bare object instead of a
/// list.
#[derive(Debug, Clone, Copy, PartialEq, Eq, Structural)]
pub struct ListWebdownloadsQuery {
    /// Bypass the cached data and always get fresh information.
    pub bypass_cache: Option<bool>,
    /// Offset of the first item to get.
    pub offset: Option<u32>,
    /// Number of items per request.
    pub limit: Option<u32>,
}

/// The query fields of a web-download list request, in order, absent
/// options skipped.
pub open spec fn spec_list_webdownloads_query_parts(q: ListWebdownloadsQuery) -> Seq<
    (Seq<char>, FieldValueData),
> {
    (match q.bypass_cache {
        Some(b) => seq![("bypass_cache"@, FieldValueData::Flag(b))],
        None => Seq::empty(),
    }) + (match q.offset {
        Some(o) => seq![("offset"@, FieldValueData::UInt(o as u64))],
        None => Seq::empty(),
    }) + (match q.limit {
        Some(l) => seq![("limit"@, FieldValueData::UInt(l as u64))],
        None => Seq::empty(),
    })
}

impl ListWebdownloadsQuery {
    /// The query pairs this request serializes to.
    pub fn to_query_parts(&self) -> (r: Vec<FormPart>)
        ensures
            parts_view(r@) == spec_list_webdownloads_query_parts(*self),
    {
        let mut parts: Vec<FormPart> = Vec::new();
        if let Some(b) = self.bypass_cache {
            parts.push(FormPart::flag("bypass_cache", b));
        }
        if let Some(o) = self.offset {
            parts.push(FormPart::uint("offset", o as u64));
        }
        if let Some(l) = self.limit {
            parts.push(FormPart::uint("limit", l as u64));
        }
        proof {
            assert(parts_view(parts@) =~= spec_list_webdownloads_query_parts(*self));
        }
        parts
    }
}

/// The create-web-download endpoint.
pub struct WebdownloadCreatePostEp;

impl WebdownloadCreatePostEp {
    /// The path of this endpoint.
    pub fn path() -> (r: &'static str)
        ensures
            r@ == "api/webdl/createwebdownload"@,
    {
        "api/webdl/createwebdownload"
    }

    /// The HTTP method of this endpoint.
    pub fn method() -> (r: HttpMethod)
        ensures
            r == HttpMethod::Post,
    {
        HttpMethod::Post
    }
}

/// The web-download control endpoint.
pub struct WebdownloadControlPostEp;

impl WebdownloadControlPostEp {
    /// The path of this endpoint.
    pub fn path() -> (r: &'static str)
        ensures
            r@ == "api/webdl/controlwebdownload"@,
    {
        "api/webdl/controlwebdownload"
    }

    /// The HTTP method of this endpoint.
    pub fn method() -> (r: HttpMethod)
        ensures
            r == HttpMethod::Post,
    {
        HttpMethod::Post
    }
}

/// The web-download link endpoint.
pub struct WebdownloadRequestLinkGetEp;

impl WebdownloadRequestLinkGetEp {
    /// The path of this endpoint.
    pub fn path() -> (r: &'static str)
        ensures
            r@ == "api/webdl/requestdl"@,
    {
        "api/webdl/requestdl"
    }

    /// The HTTP method of this endpoint.
    pub fn method() -> (r: HttpMethod)
        ensures
            r == HttpMethod::Post,
    {
        HttpMethod::Post
    }
}

/// The web-download list endpoint.
pub struct ListWebdownloadsGetEp;

impl ListWebdownloadsGetEp {
    /// The path of this endpoint.
    pub fn path() -> (r: &'static str)
        ensures
            r@ == "api/webdl/mylist"@,
    {
        "api/webdl/mylist"
    }

    /// The HTTP method of this endpoint.
    pub fn method() -> (r: HttpMethod)
        ensures
            r == HttpMethod::Post,
    {
        HttpMethod::Post
    }
}

} // verus!
