//! Verified core of an edge gateway: identity resolution from request
//! headers, per-identity token-bucket rate limiting, and transparent
//! request forwarding with byte-exact response relay.

pub mod bucket;
pub mod bytestr;
pub mod errors;
pub mod forward;
pub mod identity;
pub mod pipeline;
pub mod registry;
pub mod response;
