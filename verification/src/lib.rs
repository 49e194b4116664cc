//! Authentication-ticket decoding, elliptic-curve signature verification and
//! request/response integrity digests for a game-network login service.
//!
//! The wire format is a small TLV (type-length-value) layout: an 8-byte
//! header, a body section of typed fields, and a footer carrying the signing
//! platform's key id and the signature itself. Decoding records the byte
//! ranges that signature verification later covers. The digest engine
//! computes a SHA-1 integrity value over (body, session cookie, path, shared
//! secret) for inbound requests and outbound responses.

pub mod auth;
pub mod crypto;
pub mod cursor;
pub mod db;
pub mod digest;
pub mod error;
pub mod game_version;
pub mod hex;
pub mod npticket;
pub mod platform;
pub mod pub_key_store;
pub mod resource;
pub mod strutil;
pub mod ticket_read;
