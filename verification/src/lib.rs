//! Capability identifiers and the fixed-layout IPC message header that a
//! microkernel's message-passing path carries across process boundaries.
//!
//! The crate has three parts: an opaque 128-bit capability id with a reserved
//! all-zero `nil` sentinel, a closed registry of message-type discriminants,
//! and a codec that serializes a header record into exactly 40 bytes and
//! parses it back, little-endian for every multi-byte integer field.

pub mod cap;
pub mod codec;
pub mod msg;
