//! Notification endpoints.

use vstd::prelude::*;
use crate::client::HttpMethod;

verus! {

/// The notification feed endpoint, answered as RSS text rather than an
/// envelope.
pub struct GetRssNotifFeedEp;

impl GetRssNotifFeedEp {
    /// The path of this endpoint.
    pub fn path() -> (r: &'static str)
        ensures
            r@ == "api/notifications/rss"@,
    {
        "api/notifications/rss"
    }

    /// The HTTP method of this endpoint.
    pub fn method() -> (r: HttpMethod)
        ensures
            r == HttpMethod::Get,
    {
        HttpMethod::Get
    }
}

/// The notification feed endpoint answered as JSON.
pub struct GetNotifFeedEp;

impl GetNotifFeedEp {
    /// The path of this endpoint.
    pub fn path() -> (r: &'static str)
        ensures
            r@ == "api/notifications/mynotifications"@,
    {
        "api/notifications/mynotifications"
    }

    /// The HTTP method of this endpoint.
    pub fn method() -> (r: HttpMethod)
        ensures
            r == HttpMethod::Get,
    {
        HttpMethod::Get
    }
}

/// The clear-all-notifications endpoint.
pub struct ClearAllNotificationsEp;

impl ClearAllNotificationsEp {
    /// The path of this endpoint.
    pub fn path() -> (r: &'static str)
        ensures
            r@ == "api/notifications/clear"@,
    {
        "api/notifications/clear"
    }

    /// The HTTP method of this endpoint.
    pub fn method() -> (r: HttpMethod)
        ensures
            r == HttpMethod::Post,
    {
        HttpMethod::Post
    }
}

/// The clear-one-notification endpoint; the same path as clear-all, with
/// the notification's id in the query.
pub struct ClearSingleNotificationEp;

impl ClearSingleNotificationEp {
    /// The path of this endpoint.
    pub fn path() -> (r: &'static str)
        ensures
            r@ == "api/notifications/clear"@,
    {
        "api/notifications/clear"
    }

    /// The HTTP method of this endpoint.
    pub fn method() -> (r: HttpMethod)
        ensures
            r == HttpMethod::Post,
    {
        HttpMethod::Post
    }
}

/// The send-test-notification endpoint.
pub struct SendTestNotificationEp;

impl SendTestNotificationEp {
    /// The path of this endpoint.
    pub fn path() -> (r: &'static str)
        ensures
            r@ == "api/notifications/test"@,
    {
        "api/notifications/test"
    }

    /// The HTTP method of this endpoint.
    pub fn method() -> (r: HttpMethod)
        ensures
            r == HttpMethod::Post,
    {
        HttpMethod::Post
    }
}

} // verus!
