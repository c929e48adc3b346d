//! Persistence rules for a small authentication record kept in a JSON
//! key-value store.
//!
//! The record is an email, the hash of a password and a session token. It is
//! stored as one JSON object under one key of the store. This crate decides
//! what that object looks like, how it is validated when it is read back,
//! which failures a caller can run into, and in which order a command opens,
//! changes, saves and closes the store. The store itself is somebody else's:
//! a shell around this crate performs each step on it.
//!
//! - [`record`]: the record and its fields.
//! - [`error`]: the failures and their messages.
//! - [`json`]: what is taken on trust about `serde_json`.
//! - [`codec`]: the stored form of the record and its validation.
//! - [`protocol`]: the steps of a command against the store.
//! - [`document`]: the commands on a store held in memory, and what holds of
//!   them.

pub mod codec;
pub mod document;
pub mod error;
pub mod json;
pub mod protocol;
pub mod record;

pub use codec::{decode_auth, encode_auth, read_auth};
pub use document::{execute, get_auth, log_out, save_auth};
pub use error::AuthError;
pub use protocol::{Action, Command, Event, Session, AUTH_KEY, STORE_FILE};
pub use record::{AuthData, Field};
