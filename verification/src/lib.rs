//! Request construction for a torrent-daemon RPC protocol.
//!
//! The centre of the crate is a typed builder that accumulates target
//! identifiers and optional property overrides, then serializes them into a
//! wire-ready JSON argument object. Every property value is converted to its
//! wire representation at the setter, so serialization itself cannot fail.

pub mod json;
pub mod requests;
pub mod types;
pub mod wire;
