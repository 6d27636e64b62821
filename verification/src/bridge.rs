//! The engine's only window onto the cryptographic and encoding primitives of
//! the `bitcoin` crate. Each function here is trusted: its body makes the
//! outside call and its contract states what that call's source shows.

use vstd::prelude::*;
use std::str::FromStr;
use crate::types::{KeyNetwork, Network};

verus! {

/// SEC encoding of the public key derived from a 32-byte secret key; a
/// function of the key bytes and the compression flag alone.
pub uninterp spec fn pubkey_bytes_of(sk: Seq<u8>, compressed: bool) -> Seq<u8>;

/// What decoding a WIF string yields: the 32-byte secret key, the
/// compression flag and the embedded network kind, or nothing when the
/// string is not a valid WIF. A function of the string alone.
pub uninterp spec fn wif_of(wif: Seq<char>) -> Option<(Seq<u8>, bool, KeyNetwork)>;

/// Whether 32 bytes are a valid secp256k1 secret key (the acceptance of
/// `SecretKey::from_slice`); a function of the bytes alone.
pub uninterp spec fn sk_valid(sk: Seq<u8>) -> bool;

/// Whether an address string parses and is valid for the given network (the
/// acceptance of `Address::from_str` with `require_network`); a function of
/// the string and the network alone.
pub uninterp spec fn addr_ok(addr: Seq<char>, network: Network) -> bool;

/// Double SHA-256 of a byte string.
pub uninterp spec fn sha256d_of(data: Seq<u8>) -> Seq<u8>;

/// DER encoding of the deterministic (RFC 6979) ECDSA signature of a 32-byte
/// digest under a 32-byte secret key.
pub uninterp spec fn ecdsa_sig_der_of(sk: Seq<u8>, digest: Seq<u8>) -> Seq<u8>;

/// The locking script denoted by a Bitcoin address string.
pub uninterp spec fn address_spk_of(addr: Seq<char>) -> Seq<u8>;

/// Relies on `bitcoin::hashes::sha256d::Hash::hash`: the double SHA-256
/// digest, 32 bytes, a function of the input bytes alone.
#[verifier::external_body]
pub(crate) fn sha256d(data: &[u8]) -> (r: Vec<u8>)
    ensures
        r@ == sha256d_of(data@),
        r@.len() == 32,
{
    let h = <bitcoin::hashes::sha256d::Hash as bitcoin::hashes::Hash>::hash(data);
    <bitcoin::hashes::sha256d::Hash as bitcoin::hashes::Hash>::to_byte_array(h).to_vec()
}

/// Relies on `bitcoin::PrivateKey::from_wif`: decoding is a function of the
/// string alone and succeeds exactly for valid WIF strings, yielding the
/// 32-byte secret key (which passed the scalar check of
/// `SecretKey::from_slice`), the compression flag taken from the payload
/// length, and the network kind taken from the version byte (main or test).
#[verifier::external_body]
pub(crate) fn wif_decode(wif: &str) -> (r: Result<(Vec<u8>, bool, KeyNetwork), String>)
    ensures
        r is Ok <==> wif_of(wif@) is Some,
        r matches Ok(t) ==> wif_of(wif@) == Some((t.0@, t.1, t.2)) && t.0@.len() == 32 && sk_valid(
            t.0@,
        ),
{
    match bitcoin::PrivateKey::from_wif(wif) {
        Ok(pk) => Ok(
            (
                pk.inner.secret_bytes().to_vec(),
                pk.compressed,
                match pk.network {
                    bitcoin::NetworkKind::Main => KeyNetwork::Main,
                    bitcoin::NetworkKind::Test => KeyNetwork::Test,
                },
            ),
        ),
        Err(e) => Err(format!("{}", e)),
    }
}

/// Relies on `secp256k1::PublicKey::from_secret_key` with `serialize` /
/// `serialize_uncompressed`: derivation is a function of the secret key bytes
/// and the compression flag alone; the encoding is 33 bytes compressed and 65
/// bytes uncompressed. Fails exactly when the bytes are not a valid secret
/// key (the `SecretKey::from_slice` check).
#[verifier::external_body]
pub(crate) fn derive_pubkey(sk: &[u8], compressed: bool) -> (r: Result<Vec<u8>, ()>)
    requires
        sk@.len() == 32,
    ensures
        r is Ok <==> sk_valid(sk@),
        r matches Ok(v) ==> v@ == pubkey_bytes_of(sk@, compressed) && v@.len() == (if compressed {
            33int
        } else {
            65int
        }),
{
    let secp = bitcoin::secp256k1::Secp256k1::new();
    match bitcoin::secp256k1::SecretKey::from_slice(sk) {
        Ok(key) => {
            let pk = bitcoin::secp256k1::PublicKey::from_secret_key(&secp, &key);
            Ok(
                if compressed {
                    pk.serialize().to_vec()
                } else {
                    pk.serialize_uncompressed().to_vec()
                },
            )
        },
        Err(_) => Err(()),
    }
}

/// Relies on `secp256k1::Secp256k1::sign_ecdsa` (RFC 6979 deterministic
/// nonce) and `Signature::serialize_der`: the DER signature is a function of
/// the secret key and the digest alone, at most 72 bytes. Fails exactly when
/// the bytes are not a valid secret key (the `SecretKey::from_slice` check).
#[verifier::external_body]
pub(crate) fn sign_ecdsa_der(sk: &[u8], digest: &[u8]) -> (r: Result<Vec<u8>, ()>)
    requires
        sk@.len() == 32,
        digest@.len() == 32,
    ensures
        r is Ok <==> sk_valid(sk@),
        r matches Ok(v) ==> v@ == ecdsa_sig_der_of(sk@, digest@) && v@.len() <= 72,
{
    let secp = bitcoin::secp256k1::Secp256k1::new();
    let key = match bitcoin::secp256k1::SecretKey::from_slice(sk) {
        Ok(k) => k,
        Err(_) => return Err(()),
    };
    let mut d = [0u8; 32];
    d.copy_from_slice(digest);
    let msg = bitcoin::secp256k1::Message::from_digest(d);
    Ok(secp.sign_ecdsa(&msg, &key).serialize_der().to_vec())
}

/// Relies on `bitcoin::Address::from_str`, `Address::require_network` and
/// `Address::script_pubkey`: parsing and the network gate are a function of
/// the string and the network alone, and the locking script is a function of
/// the string alone; `require_network` only accepts or rejects the address
/// for the run's network.
#[verifier::external_body]
pub(crate) fn addr_to_spk(addr: &str, network: Network) -> (r: Result<Vec<u8>, String>)
    ensures
        r is Ok <==> addr_ok(addr@, network),
        r matches Ok(v) ==> v@ == address_spk_of(addr@),
{
    let net = match network {
        Network::Bitcoin => bitcoin::Network::Bitcoin,
        Network::Testnet => bitcoin::Network::Testnet,
        Network::Regtest => bitcoin::Network::Regtest,
    };
    match bitcoin::Address::from_str(addr) {
        Ok(a) => match a.require_network(net) {
            Ok(a) => Ok(a.script_pubkey().into_bytes()),
            Err(e) => Err(format!("{}", e)),
        },
        Err(e) => Err(format!("{}", e)),
    }
}

} // verus!
