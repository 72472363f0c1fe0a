//! Verified core of a play-to-earn battle platform.
//!
//! The library holds the fund-moving policy of the game: the battle escrow
//! state machine, the fee and stake accounting, and the authorization model
//! that protects every mutating operation. All records (platform
//! configuration, treasury, asset templates, creature assets, battles, token
//! accounts) are plain values owned by the caller and passed into each
//! operation; the runtime that loads, stores and addresses those records, and
//! the ledger that physically moves token units, sit outside this crate.
//! Every operation here is all-or-nothing: it either performs its full effect
//! or returns an error and leaves every record untouched, and each contract
//! states exactly which error comes back on which input.

pub mod auth;
pub mod errors;
pub mod escrow;
pub mod fee;
pub mod platform;
pub mod registry;
pub mod state;
pub mod token;
pub mod treasury;
