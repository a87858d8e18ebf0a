//! Core protocol logic of a command-line client for the Docker Registry
//! V2 HTTP API: RFC 5988 `Link`-header pagination, response classification
//! per the Distribution API specification, digest lookup, and the small
//! command-line grammar of the tool.
//!
//! Everything that computes or decides lives here, verified; the thin
//! asynchronous HTTP shell around it hands in plain values (status codes
//! and raw header bytes) and takes plain values back.

pub mod ascii;
pub mod api;
pub mod cli;
pub mod commands;
pub mod config;
pub mod error;
pub mod link;
pub mod paginate;
pub mod registry;
pub mod text;
