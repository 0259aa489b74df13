//! Contracts that describe a generic blockchain: blocks and their byte codec,
//! block providers, the three-phase verifier, the global state, and a verified
//! import pipeline that drives them in order.
//!
//! Beside the contracts stands one concrete chain: `SimpleBlock`, kept in a
//! `MemoryProvider`, checked by `SimpleVerifier` and enacted on a `LedgerState`.

pub mod block;
pub mod provider;
pub mod verification;
pub mod state;
pub mod chain;

pub mod codec;
pub mod simple;
pub mod memory;
pub mod rules;
pub mod ledger;
