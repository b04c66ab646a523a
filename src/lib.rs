//! A small client for the ipgeolocation.io web service: IP address lookup and
//! user agent parsing. This crate builds the requests and maps the decoded
//! responses to results; the transport runs around it.

pub mod client;
pub mod ip;
pub mod ua;
