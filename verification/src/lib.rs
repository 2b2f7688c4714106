//! Bit-exact codec engine for ETSI TETRA air-interface protocol messages.
//!
//! The heart of the crate is a bit-addressable buffer ([`bitbuffer::BitBuffer`])
//! together with the four element-framing protocols that every PDU
//! parser/serializer builds on: single-bit delimiters (o/p/m-bits),
//! conditionally present Type-2 fields, tag-identified variable-length Type-3
//! elements, and tag-identified repeated Type-4 containers. On top of the
//! codec sit the CMCE and MM protocol data units themselves.

pub mod bits;
pub mod bitbuffer;
pub mod pdu_parse_error;
pub mod address;
pub mod client_state;
pub mod config;
pub mod delimiters;
pub mod type2;
pub mod type34;
pub mod laws;
pub mod cmce;
pub mod mm;
