//! Client-side protocol core for a JSON-over-HTTP API.
//!
//! The crate provides the generic request/response machinery of the API
//! client: a canonical query-string encoder, a capability bitmask shared
//! between authorization and per-endpoint permission requirements, an error
//! taxonomy for wire error codes, a discriminated decoder for the response
//! envelope, and the authorization-code token lifecycle.  Per-endpoint
//! request and response shapes are plain data built on top of this core.

pub mod account;
pub mod api;
pub mod audio;
pub mod auth;
pub mod json;
pub mod gifts;
pub mod photos;
pub mod query;
pub mod status;
pub mod users;
pub mod video;
pub mod utils;
pub mod wall;
