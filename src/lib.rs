//! Anchoring of a replicated ledger's state into a chain of Bitcoin multisig
//! transactions: key and address derivation, the configuration model, the
//! transition between multisig addresses, scheduling of anchored heights,
//! the transaction chain builder and the collection of validator signatures.

pub mod network;
pub mod script;
pub mod config;
pub mod state;
pub mod scheduler;
pub mod chain;
pub mod transaction;
pub mod signing;
pub mod signatures;
pub mod keys;
pub mod service;
