//! Aggregation engine for per-player statistics of an online multiplayer game.
//!
//! The library holds the verified core: the derivation algorithms that turn
//! raw per-match records into higher-level facts (a player's competitive
//! standing, their most-played role, the outcome of each recent match) and
//! the pure decision logic of the remote client (mapping HTTP statuses to
//! typed errors, collapsing multi-queue rank responses to one value,
//! correlating rosters and team results). Fetching itself — HTTP requests,
//! JSON decoding and console rendering — is left to an unverified front end
//! that hands this library plain values.

pub mod error;
pub mod history;
pub mod live;
pub mod model;
pub mod profile;
pub mod rank;
pub mod role;
pub mod strutil;
