//! Typed client binding for the REST interface of a Lightning Network
//! Daemon node.
//!
//! The crate models the remote API's request and response schema as plain
//! data types, derives the authentication header from raw credential bytes,
//! serializes requests to JSON, and decodes JSON reply bodies into typed
//! records.  Network transport is left to the caller: every operation is
//! split into a pure "build the request" half and a pure "decode the reply"
//! half, with the HTTP exchange in between.

pub mod dec;
pub mod decode;
pub mod decode_payment;
pub mod encode;
pub mod hex;
pub mod jmodel;
pub mod jwrap;
pub mod node;
pub mod strutil;
pub mod types;
