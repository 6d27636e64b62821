//! Unit-level checks: hex codec, txid parsing, script classification,
//! network-name parsing, and the consensus serializer held against the
//! reference implementation in the `bitcoin` crate.

use txsigner::encode::{serialize_tx, transaction_vsize, Tx, TxInRec, TxOutRec};
use txsigner::error::AppError;
use txsigner::hexcode::{hex_decode, hex_encode, parse_txid};
use txsigner::cli::parse_network;
use txsigner::types::{Network, ScriptType};

fn sample_p2pkh_script() -> Vec<u8> {
    let mut s = vec![0x76u8, 0xa9, 0x14];
    s.extend_from_slice(&[0x11u8; 20]);
    s.push(0x88);
    s.push(0xac);
    s
}

fn sample_p2wpkh_script() -> Vec<u8> {
    let mut s = vec![0x00u8, 0x14];
    s.extend_from_slice(&[0x22u8; 20]);
    s
}

#[test]
fn hex_decode_valid() {
    assert_eq!(hex_decode("00ff7a"), Some(vec![0x00, 0xff, 0x7a]));
    assert_eq!(hex_decode("DEADbeef"), Some(vec![0xde, 0xad, 0xbe, 0xef]));
    assert_eq!(hex_decode(""), Some(vec![]));
}

#[test]
fn hex_decode_rejects_bad_input() {
    assert_eq!(hex_decode("abc"), None);
    assert_eq!(hex_decode("zz"), None);
    assert_eq!(hex_decode("0g"), None);
    assert_eq!(hex_decode("ああ"), None);
}

#[test]
fn hex_encode_lower_case() {
    assert_eq!(hex_encode(&[0x00, 0xff, 0x7a]), "00ff7a");
    assert_eq!(hex_encode(&[]), "");
}

#[test]
fn hex_round_trip() {
    let bytes = vec![1u8, 2, 3, 250, 255, 0];
    assert_eq!(hex_decode(&hex_encode(&bytes)), Some(bytes));
}

#[test]
fn parse_txid_reverses_byte_order() {
    let mut hex = String::new();
    for i in 0..32u32 {
        hex.push_str(&format!("{:02x}", i));
    }
    let parsed = parse_txid(&hex).expect("valid txid");
    assert_eq!(parsed.len(), 32);
    assert_eq!(parsed[0], 31);
    assert_eq!(parsed[31], 0);
}

#[test]
fn parse_txid_rejects_wrong_length_or_digits() {
    assert_eq!(parse_txid("ab"), None);
    let bad = "zz".repeat(32);
    assert_eq!(parse_txid(&bad), None);
}

#[test]
fn classify_p2pkh() {
    assert_eq!(ScriptType::from_script_buf(&sample_p2pkh_script()), Ok(ScriptType::P2PKH));
}

#[test]
fn classify_p2wpkh() {
    assert_eq!(ScriptType::from_script_buf(&sample_p2wpkh_script()), Ok(ScriptType::P2WPKH));
}

#[test]
fn classify_unknown_carries_exact_hex() {
    // A pay-to-script-hash pattern: a third shape, not supported.
    let mut p2sh = vec![0xa9u8, 0x14];
    p2sh.extend_from_slice(&[0x33u8; 20]);
    p2sh.push(0x87);
    let r = ScriptType::from_script_buf(&p2sh);
    match r {
        Err(AppError::UnknownScriptType { script_hex }) => {
            assert_eq!(script_hex, hex_encode(&p2sh));
        },
        other => panic!("expected unknown script type, got {:?}", other),
    }
}

#[test]
fn parse_network_accepts_all_names_any_case() {
    assert_eq!(parse_network("bitcoin"), Ok(Network::Bitcoin));
    assert_eq!(parse_network("MAINNET"), Ok(Network::Bitcoin));
    assert_eq!(parse_network("Testnet"), Ok(Network::Testnet));
    assert_eq!(parse_network("regtest"), Ok(Network::Regtest));
}

#[test]
fn parse_network_rejects_unknown_name() {
    match parse_network("foo") {
        Err(AppError::InputValidation(m)) => assert_eq!(m, "invalid network: foo"),
        other => panic!("expected input validation failure, got {:?}", other),
    }
}

#[test]
fn compact_size_boundaries() {
    let mut v: Vec<u8> = Vec::new();
    txsigner::encode::push_varint(&mut v, 0xfc);
    assert_eq!(v, vec![0xfc]);
    let mut v: Vec<u8> = Vec::new();
    txsigner::encode::push_varint(&mut v, 0xfd);
    assert_eq!(v, vec![0xfd, 0xfd, 0x00]);
    let mut v: Vec<u8> = Vec::new();
    txsigner::encode::push_varint(&mut v, 0xffff);
    assert_eq!(v, vec![0xfd, 0xff, 0xff]);
    let mut v: Vec<u8> = Vec::new();
    txsigner::encode::push_varint(&mut v, 0x1_0000);
    assert_eq!(v, vec![0xfe, 0x00, 0x00, 0x01, 0x00]);
    let mut v: Vec<u8> = Vec::new();
    txsigner::encode::push_varint(&mut v, 0x1_0000_0000);
    assert_eq!(v, vec![0xff, 0, 0, 0, 0, 1, 0, 0, 0]);
}

#[test]
fn little_endian_fields() {
    let mut v: Vec<u8> = Vec::new();
    txsigner::encode::push_le32(&mut v, 0x0102_0304);
    assert_eq!(v, vec![4, 3, 2, 1]);
    let mut v: Vec<u8> = Vec::new();
    txsigner::encode::push_le64(&mut v, 0x0102_0304_0506_0708);
    assert_eq!(v, vec![8, 7, 6, 5, 4, 3, 2, 1]);
}

fn sample_tx() -> Tx {
    let mut witness: Vec<Vec<u8>> = Vec::new();
    witness.push(vec![0xaau8; 71]);
    witness.push(vec![0x02u8; 33]);
    Tx {
        version: 2,
        lock_time: 0,
        inputs: vec![
            TxInRec {
                txid: (0u8..32).collect(),
                vout: 1,
                script_sig: Vec::new(),
                sequence: 0xffff_fffd,
                witness,
            },
            TxInRec {
                txid: (32u8..64).collect(),
                vout: 0,
                script_sig: vec![0x51u8, 0x52],
                sequence: 0xffff_ffff,
                witness: Vec::new(),
            },
        ],
        outputs: vec![
            TxOutRec { value: 12_345, script_pubkey: sample_p2pkh_script() },
            TxOutRec { value: 600, script_pubkey: sample_p2wpkh_script() },
        ],
    }
}

#[test]
fn serializer_matches_reference_implementation() {
    let tx = sample_tx();
    let bytes = serialize_tx(&tx);
    let parsed: bitcoin::Transaction =
        bitcoin::consensus::encode::deserialize(&bytes).expect("round trip");
    assert_eq!(parsed.version.0, 2);
    assert_eq!(parsed.input.len(), 2);
    assert_eq!(parsed.output.len(), 2);
    assert_eq!(parsed.output[0].value.to_sat(), 12_345);
    // The reference implementation re-serializes to the very same bytes.
    let reencoded = bitcoin::consensus::encode::serialize(&parsed);
    assert_eq!(reencoded, bytes);
}

#[test]
fn vsize_matches_reference_implementation() {
    let tx = sample_tx();
    let bytes = serialize_tx(&tx);
    let parsed: bitcoin::Transaction =
        bitcoin::consensus::encode::deserialize(&bytes).expect("round trip");
    assert_eq!(transaction_vsize(&tx), parsed.vsize() as u64);
}

#[test]
fn vsize_matches_reference_without_witness() {
    let mut tx = sample_tx();
    tx.inputs[0].witness.clear();
    let bytes = serialize_tx(&tx);
    let parsed: bitcoin::Transaction =
        bitcoin::consensus::encode::deserialize(&bytes).expect("round trip");
    assert_eq!(transaction_vsize(&tx), parsed.vsize() as u64);
    assert_eq!(bitcoin::consensus::encode::serialize(&parsed), bytes);
}
