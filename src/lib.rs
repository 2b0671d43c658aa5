//! Deterministic genesis state for a local multi-validator test network.
//!
//! Identities and consensus keys are derived from human-readable seeds,
//! combined into authority records, and composed with a fixed registry of
//! endowed accounts into a genesis descriptor wrapped in a chain spec.

pub mod config;
pub mod keys;
pub mod authorities;
pub mod accounts;
pub mod genesis;
pub mod chainspec;
