//! Client-side core for a postal-tracking web service: a tolerant JSON
//! decoder, a record normalizer that infers whether a record exists from
//! field presence, and the resolution logic that picks collection
//! endpoints and envelope keys.
//!
//! All network I/O lives outside this crate; the functions here compute
//! on response bodies and plain values only.

pub mod decode;
pub mod json;
pub mod laws;
pub mod mail;
pub(crate) mod strutil;
pub mod timestamp;
