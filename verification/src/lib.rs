//! Core of a small authenticated file-storage service.
//!
//! Accounts carry a role out of a closed set; login issues a signed,
//! time-limited bearer token; role-gated registration, password change and
//! file transfer are single-shot decisions verified against in-memory models
//! of the persistence and storage collaborators.  Hashing and token signing
//! are delegated to outside crates behind a few trusted wrappers.

pub mod auth;
pub mod errors;
pub mod files;
pub mod gateway;
pub mod groups;
pub mod password;
pub mod store;
