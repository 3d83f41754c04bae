//! A small blocking client model for the GitHub v3 REST API.
//!
//! The library builds requests, reads the page cursors of a response from its
//! `Link` header, and decodes issues, pull requests and activity events into
//! typed records. Performing a request is left to the caller: every entry
//! point takes or returns plain [`http::Request`] and [`http::Response`]
//! values.

pub mod client;
pub mod decode;
pub mod error;
pub mod events;
pub mod http;
pub mod issues;
pub mod json;
pub mod link;
pub mod model;
pub mod page;
pub mod pulls;
pub mod relation;
pub mod time;

pub use client::Client;
pub use page::Page;
