//! Deserialisation of OpenPGP signature packets.
//!
//! The crate turns the body of a signature packet into a typed
//! [`Signature`](signature::Signature), and states the wire grammar as
//! specification functions on byte sequences that the parsers are proved
//! to follow.

pub mod errors;
pub mod codes;
pub mod algorithms;
pub mod time;
pub mod small;
pub mod text;
pub mod lists;
pub mod wire;
pub mod types;
pub mod signature;
pub mod grammar;
pub mod kinds;
pub mod de;
pub mod encoding;
pub mod roundtrip;
pub mod laws;
