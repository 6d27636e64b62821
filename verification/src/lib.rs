//! A Bitcoin transaction construction and signing engine: it turns a
//! declarative description of spendable outputs and desired payments into a
//! fully signed transaction. The engine classifies locking scripts, sizes a
//! worst-case draft to fix the fee, applies the dust policy to the change,
//! derives the per-input signing digest (legacy or BIP143), and assembles
//! the unlocking data. Every step is specified and verified; only the
//! cryptographic primitives and address decoding of the `bitcoin` crate are
//! taken on trust, behind the contracts in [`bridge`].

pub mod bridge;
pub mod cli;
pub mod config;
pub mod encode;
pub mod error;
pub mod hexcode;
pub mod script;
pub mod sighash;
pub mod transaction;
pub mod types;
