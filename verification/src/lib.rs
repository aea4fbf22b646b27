//! A static-analysis rule engine for container-orchestration compose files.
//!
//! Given a parsed compose document (named services plus top-level metadata),
//! [`rules::checks`] produces a list of security and hygiene findings
//! ([`model::Alert`]).  Each alert carries a severity, an optional taxonomy
//! identifier, a message, and a source location.  Decoding the compose file
//! into the in-memory model, as well as rendering the alert list, are the
//! caller's concern.

pub mod model;
pub mod strutil;
pub mod image;
pub mod rules;
pub mod laws;
