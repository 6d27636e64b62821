//! The closed error taxonomy of the engine. Every failure aborts the whole
//! run; each variant carries the structured context a caller needs to
//! reproduce the condition.

use vstd::prelude::*;
use crate::types::{KeyNetwork, Network};

verus! {

/// A fatal failure of one run of the engine.
#[derive(Debug, PartialEq, Eq)]
pub enum AppError {
    /// The WIF-encoded private key could not be decoded.
    BitcoinKey(String),
    /// The key's embedded network differs from the run's configured network.
    NetworkMismatch { cli_network: Network, inferred_network: KeyNetwork },
    /// A malformed transaction id or locking-script field; carries the
    /// offending value and the cause.
    InputValidation(String),
    /// The locking script matches neither supported pattern; carries the
    /// script's hexadecimal rendering.
    UnknownScriptType { script_hex: String },
    /// Total input value cannot cover the recipient outputs plus the fee.
    InsufficientFunds { available: u64, required: u128, fee: u128 },
    /// The change address could not be turned into a locking script.
    ChangeAddressDerivation(String),
    /// The cryptographic backend rejected a signing request for this input.
    /// Unreachable through the pipeline: normalization only hands over keys
    /// that passed the backend's own scalar check.
    SignatureError { input_index: usize },
    /// An internal invariant was violated.
    Internal(String),
}

} // verus!
