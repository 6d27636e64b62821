//! The declarative run description handed to the engine: raw UTXO records,
//! desired payments, fee rate and change destination. The surrounding layer
//! loads it; the engine only reads it.

use vstd::prelude::*;

verus! {

/// One raw spendable output, exactly as configured.
pub struct UtxoInput {
    /// Transaction id of the previous transaction, display-order hex.
    pub txid: String,
    /// Index of the output in the previous transaction.
    pub vout: u32,
    /// Locking script of the output, hex.
    pub script_pubkey_hex: String,
    /// Value of the output in satoshis.
    pub value_sats: u64,
    /// WIF-encoded private key that unlocks the output.
    pub private_key_wif: String,
    /// Optional per-UTXO sequence number override.
    pub sequence: Option<u32>,
}

/// One desired payment: destination address and value.
pub struct TransactionOutputDef {
    pub address: String,
    pub value_sats: u64,
}

/// The whole run description.
pub struct InputConfig {
    /// Network name the configuration was written for.
    pub network: String,
    pub utxos: Vec<UtxoInput>,
    pub outputs: Vec<TransactionOutputDef>,
    /// Fee rate in satoshis per virtual byte.
    pub fee_rate_sats_per_vb: u64,
    /// Destination for change above the dust threshold.
    pub change_address: String,
    /// Configuration-wide default sequence number.
    pub default_sequence: Option<u32>,
}

} // verus!
