//! Core of a LAN music-library synchronization service: deterministic
//! content fingerprinting of catalog entities, the compare/batch diff
//! protocol, bearer-token authentication, fingerprint-keyed file serving,
//! and the session/liveness state machine.

pub mod auth;
pub mod backfill;
pub mod compare;
pub mod export;
pub mod files;
pub mod fingerprint;
pub mod join;
pub mod norm;
pub mod numfmt;
pub mod order;
pub mod protocol;
pub mod records;
pub mod session;
pub mod store;
pub mod text;
