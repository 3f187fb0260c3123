//! Client library for Roblox Open Cloud.
//!
//! Every operation is split in two verified halves: a request builder that
//! turns typed parameters into a [`http::Request`] (method, URL, headers,
//! query string and body), and a response classifier that turns an HTTP
//! status and body into a value or an [`error::Error`]. Sending the request is
//! left to the caller's transport.
pub mod types;
pub mod text;
pub mod json;
pub mod error;
pub mod http;
pub mod util;
pub mod v1;
pub mod v2;
