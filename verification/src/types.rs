//! The engine's data model: networks, the closed set of supported script
//! types, and the signing-ready record a raw UTXO is normalized into.

use vstd::prelude::*;
use crate::bridge::{pubkey_bytes_of, sk_valid};
use crate::error::AppError;
use crate::hexcode::hex_string_of;
use crate::hexcode::hex_encode;
use crate::script::{is_p2pkh, is_p2wpkh, spec_is_p2pkh, spec_is_p2wpkh};

verus! {

/// The network a run is configured for.
#[derive(Debug, Clone, Copy, PartialEq, Eq, Structural)]
pub enum Network {
    Bitcoin,
    Testnet,
    Regtest,
}

/// The network kind a WIF private key embeds: main, or test (testnet and
/// regtest share the test version byte).
#[derive(Debug, Clone, Copy, PartialEq, Eq, Structural)]
pub enum KeyNetwork {
    Main,
    Test,
}

impl Network {
    /// The key network that keys for this run network must embed.
    pub open spec fn spec_key_network(self) -> KeyNetwork {
        match self {
            Network::Bitcoin => KeyNetwork::Main,
            Network::Testnet => KeyNetwork::Test,
            Network::Regtest => KeyNetwork::Test,
        }
    }

    pub fn key_network(&self) -> (r: KeyNetwork)
        ensures
            r == self.spec_key_network(),
    {
        match self {
            Network::Bitcoin => KeyNetwork::Main,
            Network::Testnet => KeyNetwork::Test,
            Network::Regtest => KeyNetwork::Test,
        }
    }
}

/// The closed set of locking-script shapes this engine can spend.
#[derive(Debug, Clone, Copy, PartialEq, Eq, Structural)]
pub enum ScriptType {
    P2PKH,
    P2WPKH,
}

impl ScriptType {
    /// Classify a locking script's bytes. Classification is total: each of
    /// the two patterns yields its type, and any third shape is the
    /// unknown-script-type failure carrying the script's hexadecimal form.
    pub fn from_script_buf(script: &[u8]) -> (r: Result<ScriptType, AppError>)
        ensures
            spec_is_p2pkh(script@) ==> r == Ok::<ScriptType, AppError>(ScriptType::P2PKH),
            !spec_is_p2pkh(script@) && spec_is_p2wpkh(script@) ==> r == Ok::<
                ScriptType,
                AppError,
            >(ScriptType::P2WPKH),
            !spec_is_p2pkh(script@) && !spec_is_p2wpkh(script@) ==> (r matches Err(e) && e matches
                AppError::UnknownScriptType { script_hex } && script_hex@ == hex_string_of(
                script@,
            )),
            r is Ok <==> spec_is_p2pkh(script@) || spec_is_p2wpkh(script@),
    {
        if is_p2pkh(script) {
            Ok(ScriptType::P2PKH)
        } else if is_p2wpkh(script) {
            Ok(ScriptType::P2WPKH)
        } else {
            Err(AppError::UnknownScriptType { script_hex: hex_encode(script) })
        }
    }
}

/// A validated, signing-ready UTXO: decoded keys, outpoint, locking script
/// and value, classified script type, and the effective sequence number.
pub struct ProcessedUtxo {
    /// Previous transaction id, consensus (internal) byte order, 32 bytes.
    pub txid: Vec<u8>,
    /// Output index within the previous transaction.
    pub vout: u32,
    /// The locking script of the spent output.
    pub script_pubkey: Vec<u8>,
    /// Value of the spent output in satoshis.
    pub value: u64,
    /// Decoded 32-byte secret key.
    pub private_key: Vec<u8>,
    /// Whether the public key is serialized in compressed form.
    pub compressed: bool,
    /// SEC-encoded public key derived from the private key.
    pub public_key: Vec<u8>,
    /// Classified shape of `script_pubkey`.
    pub script_type: ScriptType,
    /// Effective sequence number for the input.
    pub sequence: u32,
}

impl ProcessedUtxo {
    /// Well-formedness: field sizes, the key pair relation, and agreement of
    /// the classified type with the locking script's bytes.
    pub open spec fn wf(self) -> bool {
        &&& self.txid@.len() == 32
        &&& self.private_key@.len() == 32
        &&& sk_valid(self.private_key@)
        &&& self.public_key@ == pubkey_bytes_of(self.private_key@, self.compressed)
        &&& self.public_key@.len() == (if self.compressed {
            33int
        } else {
            65int
        })
        &&& (self.script_type == ScriptType::P2PKH <==> spec_is_p2pkh(self.script_pubkey@))
        &&& (self.script_type == ScriptType::P2WPKH <==> spec_is_p2wpkh(self.script_pubkey@))
    }
}

} // verus!
