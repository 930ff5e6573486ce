//! Wallet provisioning and daemon supervision for a Lightning node:
//! mnemonic generation, master-secret derivation, an atomic create-once
//! protocol for the secret file, and the start-if-not-running decision.
use vstd::prelude::*;

pub mod protocol;
pub mod mnemonic;
pub mod store;
pub mod daemon;
pub mod service;
