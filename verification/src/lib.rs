//! Core library of the Workday Debrief application.
//!
//! The heart of the crate is an encrypted, file-backed secret vault: a
//! key-value store for sensitive strings, persisted on disk as a single
//! authenticated-encrypted blob gated by a locally held master key.  The
//! vault logic is written against explicit state (the raw contents of the
//! key file and the secrets file), so the callers that own the actual file
//! handles decide where the bytes live; everything between reading and
//! writing those bytes is specified and verified here.

pub mod aggregation;
pub mod cipher;
pub mod codec;
pub mod delivery;
pub mod error;
pub mod keys;
pub mod legacy;
pub mod master_key;
pub mod prompts;
pub mod secret_map;
pub mod vault;
