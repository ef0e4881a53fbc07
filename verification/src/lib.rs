//! Reconstruction of EVM account state by replaying blocks on top of a
//! genesis allocation.
//!
//! The store of accounts is seeded from a genesis document and then changed
//! block by block, transaction by transaction, in chain order. Two
//! reconstructors are offered: [`evm_exec`] runs every transaction on an
//! execution engine and reads the touched accounts back; [`state`] works
//! from transaction and receipt fields alone. [`reconstruct`] drives a
//! replay over a range of heights without doing any fetching itself.

pub mod account;
pub mod address;
pub mod block;
pub mod engine;
pub mod evm_exec;
pub mod evm_wvm_types;
pub mod genesis_load;
pub mod reconstruct;
pub mod rpc;
pub mod serde_arrays;
pub mod state;
pub mod text;
pub mod word;
pub mod word_map;
pub mod wvm_archiver;
