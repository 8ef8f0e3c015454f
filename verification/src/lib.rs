//! A typed client library for the TorBox file-download and
//! torrent-management web service.
//!
//! The library translates between in-process values and the service's
//! JSON/multipart HTTP protocol.  Every JSON response shares one uniform
//! envelope (`api::ApiResponse`); the modules here decode that envelope,
//! unwrap it into a typed result or a typed error, and reshape the
//! payloads whose wire form is ambiguous by design (one-or-many lists,
//! redirect-or-JSON download links, JSON-or-binary exports).  The HTTP
//! transport itself is left to the embedding application.

pub mod api;
pub mod client;
pub mod data;
pub mod enums;
pub mod error;
pub mod forms;
pub mod general;
pub mod json;
pub mod normalize;
pub mod notifications;
pub mod payload;
pub mod strutil;
pub mod torrent;
pub mod user;
pub mod webdownload;
