//! A deterministic bootstrap harness for an Ethereum-to-NEAR light-client
//! contract.
//!
//! The harness brings a light-client contract into a known initial state:
//! it correlates a set of fixture values (execution-chain headers,
//! light-client finality updates, sync committees) into one consistent
//! genesis tuple, sequences that against a freshly provisioned sandbox
//! environment, and hands back an initialized contract handle or a fully
//! configured relay driver.

pub mod config;
pub mod contract;
pub mod correlate;
pub mod harness;
pub mod sandbox;
pub mod types;
