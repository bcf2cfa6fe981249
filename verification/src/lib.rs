//! A minimal blockchain-style ledger: one global registry of execution
//! environments (the beacon chain) and a growing list of independent shard
//! chains, each an append-only log of transaction blocks. All state lives in
//! a single `Simulation` value; a thin actor protocol serializes access to it.

pub mod args;
pub mod codec;
pub mod errors;
pub mod ledger;
pub mod protocol;
pub mod text;
