//! A URL-shortening core with verified contracts: registered users shorten
//! absolute URLs into content-addressed short codes and later resolve the
//! codes back to their targets.
//!
//! The crate holds the engine itself — code derivation, resolution, the
//! favourite/soft-delete lifecycle, the token-based authentication gate and
//! the persistence contracts — while transport wiring, process bootstrap
//! and every ambient effect stay outside: the clock and fresh record ids
//! are handed in as plain values, so behaviour is a function of what the
//! caller provides.

pub mod auth;
pub mod config;
pub mod credentials;
pub mod errors;
pub mod laws;
pub mod response;
pub mod store;
pub mod urls;
pub mod users;
