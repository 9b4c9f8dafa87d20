//! Genesis state construction for the development and local-testnet chains.
//!
//! The crate derives the well-known validator keys from their seed names,
//! and assembles the per-module genesis parameters of each preset.

pub mod config;
pub mod crypto;
pub mod economics;
pub mod error;
pub mod genesis;
pub mod keys;
pub mod ledger;
pub mod preset;
