//! Guest-side support for querying a host for the implementations of an
//! abstract interface, together with the client-side canonicalization and
//! storage of interface-to-implementations records.
//!
//! The crate is organised around four pieces:
//! - [`uri`]: canonical identifier values and the canonicalization rule;
//! - [`interface_implementations`]: batch sanitization of
//!   interface-to-implementations records;
//! - [`codec`]: the binary decoder for the host's array-of-strings payloads,
//!   with a diagnostic trace for decode failures;
//! - [`bridge`]: the decision logic of the host query protocol.

pub mod bridge;
pub mod codec;
pub mod context;
pub mod interface_implementations;
pub mod module_args;
pub mod uri;
