//! End-to-end runs of the engine with real keys, held against the reference
//! implementation: fee arithmetic, dust policy, error taxonomy, and the
//! validity of every produced signature under the recomputed digests.

use txsigner::config::{InputConfig, TransactionOutputDef, UtxoInput};
use txsigner::encode::{serialize_tx, Tx};
use txsigner::error::AppError;
use txsigner::hexcode::hex_encode;
use txsigner::transaction::create_and_sign_transaction;
use txsigner::types::{KeyNetwork, Network};

type Secp = bitcoin::secp256k1::Secp256k1<bitcoin::secp256k1::All>;

fn secp() -> Secp {
    bitcoin::secp256k1::Secp256k1::new()
}

fn test_key(byte: u8) -> (bitcoin::PrivateKey, bitcoin::secp256k1::PublicKey) {
    let sk = bitcoin::secp256k1::SecretKey::from_slice(&[byte; 32]).expect("valid key");
    let pk = bitcoin::secp256k1::PublicKey::from_secret_key(&secp(), &sk);
    let wif_key =
        bitcoin::PrivateKey { compressed: true, network: bitcoin::NetworkKind::Test, inner: sk };
    (wif_key, pk)
}

fn p2wpkh_addr(pk: &bitcoin::secp256k1::PublicKey) -> (String, Vec<u8>) {
    let cpk = bitcoin::CompressedPublicKey(*pk);
    let addr = bitcoin::Address::p2wpkh(&cpk, bitcoin::Network::Regtest);
    let spk = addr.script_pubkey().into_bytes();
    (addr.to_string(), spk)
}

fn p2pkh_addr(pk: &bitcoin::secp256k1::PublicKey) -> (String, Vec<u8>) {
    let addr = bitcoin::Address::p2pkh(bitcoin::PublicKey::new(*pk), bitcoin::NetworkKind::Test);
    let spk = addr.script_pubkey().into_bytes();
    (addr.to_string(), spk)
}

fn utxo(txid_digit: char, spk: &[u8], value: u64, key: &bitcoin::PrivateKey) -> UtxoInput {
    UtxoInput {
        txid: txid_digit.to_string().repeat(64),
        vout: 0,
        script_pubkey_hex: hex_encode(spk),
        value_sats: value,
        private_key_wif: key.to_wif(),
        sequence: None,
    }
}

/// The worst-case draft of §fee estimation, rebuilt with the reference
/// implementation, to predict the engine's fee.
fn reference_fee(
    inputs: &[(bool, bitcoin::secp256k1::PublicKey)],
    rec: &[(Vec<u8>, u64)],
    change_spk: &[u8],
    fee_rate: u64,
) -> u64 {
    let mut txins: Vec<bitcoin::TxIn> = Vec::new();
    for (segwit, pk) in inputs {
        let mut txin = bitcoin::TxIn {
            previous_output: bitcoin::OutPoint::null(),
            script_sig: bitcoin::ScriptBuf::new(),
            sequence: bitcoin::Sequence(0xffff_ffff),
            witness: bitcoin::Witness::new(),
        };
        if *segwit {
            txin.witness.push(vec![0u8; 72]);
            txin.witness.push(pk.serialize().to_vec());
        } else {
            txin.script_sig = bitcoin::script::Builder::new()
                .push_slice([0u8; 72])
                .push_key(&bitcoin::PublicKey::new(*pk))
                .into_script();
        }
        txins.push(txin);
    }
    let mut txouts: Vec<bitcoin::TxOut> = Vec::new();
    for (spk, value) in rec {
        txouts.push(bitcoin::TxOut {
            value: bitcoin::Amount::from_sat(*value),
            script_pubkey: bitcoin::ScriptBuf::from_bytes(spk.clone()),
        });
    }
    txouts.push(bitcoin::TxOut {
        value: bitcoin::Amount::from_sat(0),
        script_pubkey: bitcoin::ScriptBuf::from_bytes(change_spk.to_vec()),
    });
    let draft = bitcoin::Transaction {
        version: bitcoin::transaction::Version(2),
        lock_time: bitcoin::absolute::LockTime::ZERO,
        input: txins,
        output: txouts,
    };
    draft.vsize() as u64 * fee_rate
}

fn parse_with_reference(tx: &Tx) -> bitcoin::Transaction {
    bitcoin::consensus::encode::deserialize(&serialize_tx(tx)).expect("engine output parses")
}

fn segwit_config(value: u64, pay: u64, fee_rate: u64) -> InputConfig {
    let (key1, pk1) = test_key(1);
    let (_, pk2) = test_key(2);
    let (_, pk3) = test_key(3);
    let (_, spk1) = p2wpkh_addr(&pk1);
    let (dest, _) = p2wpkh_addr(&pk2);
    let (change, _) = p2wpkh_addr(&pk3);
    InputConfig {
        network: "regtest".to_string(),
        utxos: vec![utxo('a', &spk1, value, &key1)],
        outputs: vec![TransactionOutputDef { address: dest, value_sats: pay }],
        fee_rate_sats_per_vb: fee_rate,
        change_address: change,
        default_sequence: None,
    }
}

#[test]
fn segwit_end_to_end_balances_and_verifies() {
    // One 100,000-sat P2WPKH UTXO, one 50,000-sat payment, 5 sat/vB.
    let config = segwit_config(100_000, 50_000, 5);
    let tx = create_and_sign_transaction(&config, Network::Regtest).expect("run succeeds");

    let (_, pk1) = test_key(1);
    let (_, pk2) = test_key(2);
    let (_, pk3) = test_key(3);
    let (_, spk1) = p2wpkh_addr(&pk1);
    let (_, dest_spk) = p2wpkh_addr(&pk2);
    let (_, change_spk) = p2wpkh_addr(&pk3);

    let fee = reference_fee(&[(true, pk1)], &[(dest_spk.clone(), 50_000)], &change_spk, 5);
    let change = 100_000 - 50_000 - fee;
    assert!(change >= 546, "scenario expects a change output");

    assert_eq!(tx.version, 2);
    assert_eq!(tx.lock_time, 0);
    assert_eq!(tx.outputs.len(), 2);
    assert_eq!(tx.outputs[0].value, 50_000);
    assert_eq!(tx.outputs[0].script_pubkey, dest_spk);
    assert_eq!(tx.outputs[1].value, change);
    assert_eq!(tx.outputs[1].script_pubkey, change_spk);
    // Conservation: input value = recipient + change + fee.
    assert_eq!(100_000, tx.outputs[0].value + tx.outputs[1].value + fee);

    // The witness carries [signature blob, public key]; the signature
    // validates under the recomputed BIP143 digest.
    assert_eq!(tx.inputs.len(), 1);
    assert_eq!(tx.inputs[0].sequence, 0xffff_ffff);
    let witness = &tx.inputs[0].witness;
    assert_eq!(witness.len(), 2);
    assert_eq!(witness[1], pk1.serialize().to_vec());
    let blob = &witness[0];
    assert_eq!(*blob.last().unwrap(), 0x01);

    let parsed = parse_with_reference(&tx);
    let spk_script = bitcoin::ScriptBuf::from_bytes(spk1.clone());
    let mut cache = bitcoin::sighash::SighashCache::new(&parsed);
    let digest = cache
        .p2wpkh_signature_hash(
            0,
            &spk_script,
            bitcoin::Amount::from_sat(100_000),
            bitcoin::sighash::EcdsaSighashType::All,
        )
        .expect("digest");
    let msg = bitcoin::secp256k1::Message::from_digest_slice(digest.as_ref()).expect("32 bytes");
    let sig = bitcoin::secp256k1::ecdsa::Signature::from_der(&blob[..blob.len() - 1])
        .expect("DER signature");
    secp().verify_ecdsa(&msg, &sig, &pk1).expect("witness signature validates");
}

#[test]
fn fee_is_deterministic() {
    let a = create_and_sign_transaction(&segwit_config(100_000, 50_000, 5), Network::Regtest)
        .expect("first run");
    let b = create_and_sign_transaction(&segwit_config(100_000, 50_000, 5), Network::Regtest)
        .expect("second run");
    assert_eq!(serialize_tx(&a), serialize_tx(&b));
}

#[test]
fn legacy_end_to_end_signature_verifies() {
    let (key1, pk1) = test_key(4);
    let (_, pk2) = test_key(5);
    let (_, spk1) = p2pkh_addr(&pk1);
    let (dest, _) = p2wpkh_addr(&pk2);
    let (change, _) = p2wpkh_addr(&pk2);
    let config = InputConfig {
        network: "regtest".to_string(),
        utxos: vec![utxo('b', &spk1, 80_000, &key1)],
        outputs: vec![TransactionOutputDef { address: dest, value_sats: 30_000 }],
        fee_rate_sats_per_vb: 2,
        change_address: change,
        default_sequence: None,
    };
    let tx = create_and_sign_transaction(&config, Network::Regtest).expect("run succeeds");

    // Unlocking script: push(signature blob), push(public key).
    assert!(tx.inputs[0].witness.is_empty());
    let ss = &tx.inputs[0].script_sig;
    let sig_len = ss[0] as usize;
    let blob = &ss[1..1 + sig_len];
    assert_eq!(*blob.last().unwrap(), 0x01);
    let pk_len = ss[1 + sig_len] as usize;
    let pk_bytes = &ss[2 + sig_len..2 + sig_len + pk_len];
    assert_eq!(ss.len(), 2 + sig_len + pk_len);
    assert_eq!(pk_bytes, &pk1.serialize()[..]);

    // The signature validates under the recomputed legacy digest.
    let parsed = parse_with_reference(&tx);
    let spk_script = bitcoin::ScriptBuf::from_bytes(spk1.clone());
    let cache = bitcoin::sighash::SighashCache::new(&parsed);
    let digest = cache.legacy_signature_hash(0, &spk_script, 1).expect("digest");
    let msg = bitcoin::secp256k1::Message::from_digest_slice(digest.as_ref()).expect("32 bytes");
    let sig = bitcoin::secp256k1::ecdsa::Signature::from_der(&blob[..blob.len() - 1])
        .expect("DER signature");
    secp().verify_ecdsa(&msg, &sig, &pk1).expect("legacy signature validates");
}

#[test]
fn mixed_inputs_sign_in_order() {
    let (key1, pk1) = test_key(6);
    let (key2, pk2) = test_key(7);
    let (_, pk3) = test_key(8);
    let (_, spk1) = p2pkh_addr(&pk1);
    let (_, spk2) = p2wpkh_addr(&pk2);
    let (dest, _) = p2wpkh_addr(&pk3);
    let (change, _) = p2wpkh_addr(&pk3);
    let config = InputConfig {
        network: "regtest".to_string(),
        utxos: vec![utxo('c', &spk1, 40_000, &key1), utxo('d', &spk2, 60_000, &key2)],
        outputs: vec![TransactionOutputDef { address: dest, value_sats: 70_000 }],
        fee_rate_sats_per_vb: 3,
        change_address: change,
        default_sequence: None,
    };
    let tx = create_and_sign_transaction(&config, Network::Regtest).expect("run succeeds");
    assert_eq!(tx.inputs.len(), 2);
    // Input order follows configuration order; unlocking data sits where the
    // script type demands it.
    assert_eq!(tx.inputs[0].txid, {
        let mut t = vec![0xccu8; 32];
        t.reverse();
        t
    });
    assert!(!tx.inputs[0].script_sig.is_empty());
    assert!(tx.inputs[0].witness.is_empty());
    assert!(tx.inputs[1].script_sig.is_empty());
    assert_eq!(tx.inputs[1].witness.len(), 2);

    let parsed = parse_with_reference(&tx);
    let mut cache = bitcoin::sighash::SighashCache::new(&parsed);

    let digest0 = cache
        .legacy_signature_hash(0, &bitcoin::ScriptBuf::from_bytes(spk1.clone()), 1)
        .expect("digest");
    let msg0 =
        bitcoin::secp256k1::Message::from_digest_slice(digest0.as_ref()).expect("32 bytes");
    let ss = &tx.inputs[0].script_sig;
    let sig_len = ss[0] as usize;
    let sig0 = bitcoin::secp256k1::ecdsa::Signature::from_der(&ss[1..sig_len]).expect("DER");
    secp().verify_ecdsa(&msg0, &sig0, &pk1).expect("first input validates");

    let digest1 = cache
        .p2wpkh_signature_hash(
            1,
            &bitcoin::ScriptBuf::from_bytes(spk2.clone()),
            bitcoin::Amount::from_sat(60_000),
            bitcoin::sighash::EcdsaSighashType::All,
        )
        .expect("digest");
    let msg1 =
        bitcoin::secp256k1::Message::from_digest_slice(digest1.as_ref()).expect("32 bytes");
    let blob1 = &tx.inputs[1].witness[0];
    let sig1 = bitcoin::secp256k1::ecdsa::Signature::from_der(&blob1[..blob1.len() - 1])
        .expect("DER");
    secp().verify_ecdsa(&msg1, &sig1, &pk2).expect("second input validates");
}

#[test]
fn insufficient_funds_reports_exact_figures() {
    // Input total 1,000, output total 2,000: fails whatever the fee rate.
    let config = segwit_config(1_000, 2_000, 7);
    let (_, pk1) = test_key(1);
    let (_, pk2) = test_key(2);
    let (_, pk3) = test_key(3);
    let (_, dest_spk) = p2wpkh_addr(&pk2);
    let (_, change_spk) = p2wpkh_addr(&pk3);
    let fee = reference_fee(&[(true, pk1)], &[(dest_spk, 2_000)], &change_spk, 7);
    match create_and_sign_transaction(&config, Network::Regtest) {
        Err(AppError::InsufficientFunds { available, required, fee: f }) => {
            assert_eq!(available, 1_000);
            assert_eq!(f, fee as u128);
            assert_eq!(required, 2_000 + fee as u128);
        },
        other => panic!("expected insufficient funds, got {:?}", other),
    }
}

#[test]
fn change_at_dust_threshold_creates_output() {
    // Fee rate zero: change is exactly input minus payment.
    let config = segwit_config(10_000, 10_000 - 546, 0);
    let tx = create_and_sign_transaction(&config, Network::Regtest).expect("run succeeds");
    assert_eq!(tx.outputs.len(), 2);
    assert_eq!(tx.outputs[1].value, 546);
}

#[test]
fn change_below_dust_threshold_is_absorbed() {
    let config = segwit_config(10_000, 10_000 - 545, 0);
    let tx = create_and_sign_transaction(&config, Network::Regtest).expect("run succeeds");
    assert_eq!(tx.outputs.len(), 1);
    assert_eq!(tx.outputs[0].value, 10_000 - 545);
}

#[test]
fn zero_change_emits_no_output() {
    let config = segwit_config(10_000, 10_000, 0);
    let tx = create_and_sign_transaction(&config, Network::Regtest).expect("run succeeds");
    assert_eq!(tx.outputs.len(), 1);
}

#[test]
fn network_mismatch_names_both_networks() {
    let (_, pk1) = test_key(9);
    let sk = bitcoin::secp256k1::SecretKey::from_slice(&[9; 32]).unwrap();
    let mainnet_key =
        bitcoin::PrivateKey { compressed: true, network: bitcoin::NetworkKind::Main, inner: sk };
    let (_, spk1) = p2wpkh_addr(&pk1);
    let (dest, _) = p2wpkh_addr(&pk1);
    let config = InputConfig {
        network: "regtest".to_string(),
        utxos: vec![utxo('e', &spk1, 10_000, &mainnet_key)],
        outputs: vec![TransactionOutputDef { address: dest.clone(), value_sats: 1_000 }],
        fee_rate_sats_per_vb: 1,
        change_address: dest,
        default_sequence: None,
    };
    match create_and_sign_transaction(&config, Network::Regtest) {
        Err(AppError::NetworkMismatch { cli_network, inferred_network }) => {
            assert_eq!(cli_network, Network::Regtest);
            assert_eq!(inferred_network, KeyNetwork::Main);
        },
        other => panic!("expected network mismatch, got {:?}", other),
    }
}

#[test]
fn unknown_script_type_carries_hex() {
    let (key1, pk1) = test_key(10);
    let (dest, _) = p2wpkh_addr(&pk1);
    let op_return = vec![0x6au8, 0x00];
    let config = InputConfig {
        network: "regtest".to_string(),
        utxos: vec![utxo('f', &op_return, 10_000, &key1)],
        outputs: vec![TransactionOutputDef { address: dest.clone(), value_sats: 1_000 }],
        fee_rate_sats_per_vb: 1,
        change_address: dest,
        default_sequence: None,
    };
    match create_and_sign_transaction(&config, Network::Regtest) {
        Err(AppError::UnknownScriptType { script_hex }) => assert_eq!(script_hex, "6a00"),
        other => panic!("expected unknown script type, got {:?}", other),
    }
}

#[test]
fn malformed_txid_is_input_validation() {
    let (key1, pk1) = test_key(11);
    let (_, spk1) = p2wpkh_addr(&pk1);
    let (dest, _) = p2wpkh_addr(&pk1);
    let mut bad = utxo('a', &spk1, 10_000, &key1);
    bad.txid = "nonsense".to_string();
    let config = InputConfig {
        network: "regtest".to_string(),
        utxos: vec![bad],
        outputs: vec![TransactionOutputDef { address: dest.clone(), value_sats: 1_000 }],
        fee_rate_sats_per_vb: 1,
        change_address: dest,
        default_sequence: None,
    };
    match create_and_sign_transaction(&config, Network::Regtest) {
        Err(AppError::InputValidation(m)) => assert!(m.contains("nonsense")),
        other => panic!("expected input validation, got {:?}", other),
    }
}

#[test]
fn malformed_wif_is_key_failure() {
    let (_, pk1) = test_key(12);
    let (_, spk1) = p2wpkh_addr(&pk1);
    let (dest, _) = p2wpkh_addr(&pk1);
    let config = InputConfig {
        network: "regtest".to_string(),
        utxos: vec![UtxoInput {
            txid: "a".to_string().repeat(64),
            vout: 0,
            script_pubkey_hex: hex_encode(&spk1),
            value_sats: 10_000,
            private_key_wif: "not-a-wif".to_string(),
            sequence: None,
        }],
        outputs: vec![TransactionOutputDef { address: dest.clone(), value_sats: 1_000 }],
        fee_rate_sats_per_vb: 1,
        change_address: dest,
        default_sequence: None,
    };
    match create_and_sign_transaction(&config, Network::Regtest) {
        Err(AppError::BitcoinKey(_)) => {},
        other => panic!("expected key failure, got {:?}", other),
    }
}

#[test]
fn malformed_change_address_is_derivation_failure() {
    let mut config = segwit_config(10_000, 1_000, 1);
    config.change_address = "not-an-address".to_string();
    match create_and_sign_transaction(&config, Network::Regtest) {
        Err(AppError::ChangeAddressDerivation(m)) => assert!(m.contains("not-an-address")),
        other => panic!("expected change address failure, got {:?}", other),
    }
}

#[test]
fn wrong_network_recipient_address_is_rejected() {
    let mut config = segwit_config(10_000, 1_000, 1);
    // A mainnet destination must be refused on regtest.
    let (_, pk) = test_key(13);
    let cpk = bitcoin::CompressedPublicKey(pk);
    let mainnet = bitcoin::Address::p2wpkh(&cpk, bitcoin::Network::Bitcoin);
    config.outputs[0].address = mainnet.to_string();
    match create_and_sign_transaction(&config, Network::Regtest) {
        Err(AppError::InputValidation(_)) => {},
        other => panic!("expected input validation, got {:?}", other),
    }
}

#[test]
fn sequence_resolution_prefers_explicit_then_default() {
    let mut config = segwit_config(10_000, 1_000, 1);
    config.utxos[0].sequence = Some(5);
    config.default_sequence = Some(7);
    let tx = create_and_sign_transaction(&config, Network::Regtest).expect("run succeeds");
    assert_eq!(tx.inputs[0].sequence, 5);

    let mut config = segwit_config(10_000, 1_000, 1);
    config.default_sequence = Some(7);
    let tx = create_and_sign_transaction(&config, Network::Regtest).expect("run succeeds");
    assert_eq!(tx.inputs[0].sequence, 7);

    let config = segwit_config(10_000, 1_000, 1);
    let tx = create_and_sign_transaction(&config, Network::Regtest).expect("run succeeds");
    assert_eq!(tx.inputs[0].sequence, 0xffff_ffff);
}
