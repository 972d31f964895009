//! Client-side library for a remote clearing-house program.
//!
//! The library covers the deterministic core of such a client: deriving
//! account addresses from seeds, decoding discriminator-tagged account
//! records, keeping per-account caches with explicit freshness control and
//! push subscriptions, building well-formed operations, and composing
//! atomic submissions. All network transport stays outside; the library
//! works on plain values and states exactly what it does with them.

pub mod address;
pub mod codec;
pub mod records;
pub mod pda;
pub mod cache;
pub mod accounts;
pub mod ops;
pub mod compose;
pub mod user;
pub mod admin;
pub mod errors;
pub mod token;
pub mod trade;
