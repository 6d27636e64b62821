//! The engine's pipeline: normalize raw UTXOs, turn payments into outputs,
//! estimate the fee from a worst-case draft, apply the dust policy, compute
//! each input's digest, sign, and assemble the final transaction.

use vstd::prelude::*;
use vstd::slice::slice_to_vec;
use vstd::string::StringExecFns;
use crate::bridge::{addr_ok, addr_to_spk, address_spk_of, derive_pubkey, ecdsa_sig_der_of, sign_ecdsa_der, sk_valid, wif_decode, wif_of};
use crate::config::{InputConfig, TransactionOutputDef, UtxoInput};
use crate::encode::{outs_model, spec_vsize, transaction_vsize, Tx, TxInModel, TxInRec, TxModel, TxOutModel, TxOutRec};
use crate::error::AppError;
use crate::hexcode::{hex_decode, hex_decoded, hex_string_of, parse_txid, spec_txid_bytes, valid_hex_seq};
use crate::script::{build_dummy_signature, build_push_two, push_two, spec_is_p2pkh, spec_is_p2wpkh, zero_bytes};
use crate::sighash::{bip143_preimage, clone_outputs, compute_input_digest, legacy_sighash_preimage, legacy_variant_inputs, skeleton_inputs, spec_input_digest};
use crate::types::{Network, ProcessedUtxo, ScriptType};

verus! {

/// Outputs below this many satoshis are not worth creating: change under it
/// is folded into the fee.
pub const DUST_THRESHOLD_SATS: u64 = 546;

/// Total value of a list of processed UTXOs.
pub open spec fn sum_utxo_values(s: Seq<ProcessedUtxo>) -> int
    decreases s.len(),
{
    if s.len() == 0 {
        0
    } else {
        sum_utxo_values(s.drop_last()) + s.last().value
    }
}

/// Total value of a list of outputs.
pub open spec fn sum_output_values(s: Seq<TxOutModel>) -> int
    decreases s.len(),
{
    if s.len() == 0 {
        0
    } else {
        sum_output_values(s.drop_last()) + s.last().value
    }
}

/// Total value of the raw UTXO records of a configuration.
pub open spec fn sum_raw_input_values(s: Seq<UtxoInput>) -> int
    decreases s.len(),
{
    if s.len() == 0 {
        0
    } else {
        sum_raw_input_values(s.drop_last()) + s.last().value_sats
    }
}

/// Total value of the raw payment records of a configuration.
pub open spec fn sum_raw_output_values(s: Seq<TransactionOutputDef>) -> int
    decreases s.len(),
{
    if s.len() == 0 {
        0
    } else {
        sum_raw_output_values(s.drop_last()) + s.last().value_sats
    }
}

pub proof fn lemma_sum_utxo_take(s: Seq<ProcessedUtxo>, i: int)
    requires
        0 <= i < s.len(),
    ensures
        sum_utxo_values(s.take(i + 1)) == sum_utxo_values(s.take(i)) + s[i].value,
{
    assert(s.take(i + 1).drop_last() =~= s.take(i));
}

pub proof fn lemma_sum_output_take(s: Seq<TxOutModel>, i: int)
    requires
        0 <= i < s.len(),
    ensures
        sum_output_values(s.take(i + 1)) == sum_output_values(s.take(i)) + s[i].value,
{
    assert(s.take(i + 1).drop_last() =~= s.take(i));
}

pub proof fn lemma_sum_utxo_prefix_le(s: Seq<ProcessedUtxo>, i: int)
    requires
        0 <= i <= s.len(),
    ensures
        sum_utxo_values(s.take(i)) <= sum_utxo_values(s),
        sum_utxo_values(s.take(i)) >= 0,
    decreases s.len() - i,
{
    lemma_sum_utxo_nonneg(s.take(i));
    if i == s.len() {
        assert(s.take(i) =~= s);
        lemma_sum_utxo_nonneg(s);
    } else {
        lemma_sum_utxo_take(s, i);
        lemma_sum_utxo_prefix_le(s, i + 1);
    }
}

pub proof fn lemma_sum_utxo_nonneg(s: Seq<ProcessedUtxo>)
    ensures
        sum_utxo_values(s) >= 0,
    decreases s.len(),
{
    if s.len() > 0 {
        lemma_sum_utxo_nonneg(s.drop_last());
    }
}

pub proof fn lemma_sum_output_prefix_le(s: Seq<TxOutModel>, i: int)
    requires
        0 <= i <= s.len(),
    ensures
        sum_output_values(s.take(i)) <= sum_output_values(s),
        sum_output_values(s.take(i)) >= 0,
    decreases s.len() - i,
{
    lemma_sum_output_nonneg(s.take(i));
    if i == s.len() {
        assert(s.take(i) =~= s);
        lemma_sum_output_nonneg(s);
    } else {
        lemma_sum_output_take(s, i);
        lemma_sum_output_prefix_le(s, i + 1);
    }
}

pub proof fn lemma_sum_output_nonneg(s: Seq<TxOutModel>)
    ensures
        sum_output_values(s) >= 0,
    decreases s.len(),
{
    if s.len() > 0 {
        lemma_sum_output_nonneg(s.drop_last());
    }
}

/// Two value lists with equal entries have equal totals.
pub proof fn lemma_sum_utxo_matches_raw(pus: Seq<ProcessedUtxo>, raw: Seq<UtxoInput>)
    requires
        pus.len() == raw.len(),
        forall|i: int| 0 <= i < pus.len() ==> #[trigger] pus[i].value == raw[i].value_sats,
    ensures
        sum_utxo_values(pus) == sum_raw_input_values(raw),
    decreases pus.len(),
{
    if pus.len() > 0 {
        lemma_sum_utxo_matches_raw(pus.drop_last(), raw.drop_last());
    }
}

/// Converted outputs carry the configured values, so the totals agree.
pub proof fn lemma_sum_output_matches_raw(outs: Seq<TxOutModel>, raw: Seq<TransactionOutputDef>)
    requires
        outs.len() == raw.len(),
        forall|i: int| 0 <= i < outs.len() ==> #[trigger] outs[i].value == raw[i].value_sats,
    ensures
        sum_output_values(outs) == sum_raw_output_values(raw),
    decreases outs.len(),
{
    if outs.len() > 0 {
        lemma_sum_output_matches_raw(outs.drop_last(), raw.drop_last());
    }
}

/// The effective sequence number: the record's own, else the configured
/// default, else the maximum (final, no special signaling).
pub open spec fn spec_resolved_sequence(explicit: Option<u32>, default: Option<u32>) -> u32 {
    if explicit is Some {
        explicit->0
    } else if default is Some {
        default->0
    } else {
        0xffff_ffffu32
    }
}

/// One input of the fee-estimation draft: worst-case unlocking data in
/// place, a 72-byte dummy signature beside the real public key.
pub open spec fn draft_input(pu: ProcessedUtxo) -> TxInModel {
    match pu.script_type {
        ScriptType::P2PKH => TxInModel {
            txid: pu.txid@,
            vout: pu.vout,
            script_sig: push_two(zero_bytes(72), pu.public_key@),
            sequence: pu.sequence,
            witness: Seq::empty(),
        },
        ScriptType::P2WPKH => TxInModel {
            txid: pu.txid@,
            vout: pu.vout,
            script_sig: Seq::empty(),
            sequence: pu.sequence,
            witness: seq![zero_bytes(72), pu.public_key@],
        },
    }
}

/// The fee-estimation draft: every input with worst-case unlocking data,
/// all recipient outputs, and a zero-value dummy change output.
pub open spec fn draft_tx(
    utxos: Seq<ProcessedUtxo>,
    rec: Seq<TxOutModel>,
    change_spk: Seq<u8>,
) -> TxModel {
    TxModel {
        version: 2,
        lock_time: 0,
        inputs: Seq::new(utxos.len(), |i: int| draft_input(utxos[i])),
        outputs: rec + seq![TxOutModel { value: 0, script_pubkey: change_spk }],
    }
}

/// The fee: the draft's virtual size times the fee rate, exactly.
pub open spec fn spec_fee(
    utxos: Seq<ProcessedUtxo>,
    rec: Seq<TxOutModel>,
    change_spk: Seq<u8>,
    fee_rate: u64,
) -> int {
    spec_vsize(draft_tx(utxos, rec, change_spk)) * fee_rate
}

/// The outputs of the final transaction: the recipients in order, and a
/// change output exactly when the change reaches the dust threshold.
pub open spec fn spec_final_outputs(
    rec: Seq<TxOutModel>,
    change_spk: Seq<u8>,
    change: int,
) -> Seq<TxOutModel> {
    if change >= DUST_THRESHOLD_SATS {
        rec + seq![TxOutModel { value: change as u64, script_pubkey: change_spk }]
    } else {
        rec
    }
}

/// Sum the processed UTXOs' values.
pub fn total_input_value(utxos: &Vec<ProcessedUtxo>) -> (r: u64)
    requires
        sum_utxo_values(utxos@) <= u64::MAX,
    ensures
        r == sum_utxo_values(utxos@),
{
    let mut total: u64 = 0;
    let mut i: usize = 0;
    while i < utxos.len()
        invariant
            i <= utxos@.len(),
            sum_utxo_values(utxos@) <= u64::MAX,
            total == sum_utxo_values(utxos@.take(i as int)),
        decreases utxos@.len() - i,
    {
        proof {
            lemma_sum_utxo_take(utxos@, i as int);
            lemma_sum_utxo_prefix_le(utxos@, i + 1);
        }
        total = total + utxos[i].value;
        i = i + 1;
    }
    proof {
        assert(utxos@.take(utxos@.len() as int) =~= utxos@);
    }
    total
}

/// Sum the output values of a built output list.
pub fn total_output_value(outputs: &Vec<TxOutRec>) -> (r: u64)
    requires
        sum_output_values(outs_model(outputs@)) <= u64::MAX,
    ensures
        r == sum_output_values(outs_model(outputs@)),
{
    let ghost m = outs_model(outputs@);
    let mut total: u64 = 0;
    let mut i: usize = 0;
    while i < outputs.len()
        invariant
            i <= outputs@.len(),
            m == outs_model(outputs@),
            m.len() == outputs@.len(),
            sum_output_values(m) <= u64::MAX,
            total == sum_output_values(m.take(i as int)),
        decreases outputs@.len() - i,
    {
        proof {
            lemma_sum_output_take(m, i as int);
            lemma_sum_output_prefix_le(m, i + 1);
        }
        total = total + outputs[i].value;
        i = i + 1;
    }
    proof {
        assert(m.take(m.len() as int) =~= m);
    }
    total
}

/// Build the worst-case draft and compute the fee from its virtual size.
/// The draft is discarded; only the fee leaves this function.
pub fn estimate_fee(
    utxos: &Vec<ProcessedUtxo>,
    rec_outputs: &Vec<TxOutRec>,
    change_spk: &Vec<u8>,
    fee_rate: u64,
) -> (r: u128)
    requires
        forall|i: int| 0 <= i < utxos@.len() ==> (#[trigger] utxos@[i]).wf(),
    ensures
        r == spec_fee(utxos@, outs_model(rec_outputs@), change_spk@, fee_rate),
        spec_vsize(draft_tx(utxos@, outs_model(rec_outputs@), change_spk@)) <= u64::MAX,
{
    let mut inputs: Vec<TxInRec> = Vec::new();
    let mut i: usize = 0;
    while i < utxos.len()
        invariant
            i <= utxos@.len(),
            inputs@.len() == i,
            forall|k: int| 0 <= k < utxos@.len() ==> (#[trigger] utxos@[k]).wf(),
            forall|k: int| 0 <= k < i ==> #[trigger] inputs@[k]@ == draft_input(utxos@[k]),
        decreases utxos@.len() - i,
    {
        let txid = slice_to_vec(utxos[i].txid.as_slice());
        match utxos[i].script_type {
            ScriptType::P2PKH => {
                let dummy = build_dummy_signature();
                let script_sig = build_push_two(dummy.as_slice(), utxos[i].public_key.as_slice());
                inputs.push(
                    TxInRec {
                        txid,
                        vout: utxos[i].vout,
                        script_sig,
                        sequence: utxos[i].sequence,
                        witness: Vec::new(),
                    },
                );
                proof {
                    let m = inputs@[i as int]@;
                    let t = draft_input(utxos@[i as int]);
                    assert(m.witness =~= t.witness);
                }
            },
            ScriptType::P2WPKH => {
                let mut witness: Vec<Vec<u8>> = Vec::new();
                witness.push(build_dummy_signature());
                witness.push(slice_to_vec(utxos[i].public_key.as_slice()));
                inputs.push(
                    TxInRec {
                        txid,
                        vout: utxos[i].vout,
                        script_sig: Vec::new(),
                        sequence: utxos[i].sequence,
                        witness,
                    },
                );
                proof {
                    let m = inputs@[i as int]@;
                    let t = draft_input(utxos@[i as int]);
                    assert(m.script_sig =~= t.script_sig);
                    assert(m.witness =~~= t.witness);
                }
            },
        }
        i = i + 1;
    }
    let mut outputs = clone_outputs(rec_outputs);
    outputs.push(TxOutRec { value: 0, script_pubkey: slice_to_vec(change_spk.as_slice()) });
    let tx = Tx { version: 2, lock_time: 0, inputs, outputs };
    proof {
        let t = draft_tx(utxos@, outs_model(rec_outputs@), change_spk@);
        assert(tx@.inputs =~= t.inputs);
        assert(tx@.outputs =~= t.outputs);
    }
    let vsize = transaction_vsize(&tx);
    proof {
        assert((vsize as u128) * (fee_rate as u128) <= u128::MAX) by (nonlinear_arith)
            requires
                vsize <= u64::MAX,
                fee_rate <= u64::MAX,
        ;
    }
    (vsize as u128) * (fee_rate as u128)
}

/// Append the change output when the change reaches the dust threshold;
/// below it the change is dropped into the fee and no output appears.
pub fn apply_dust_policy(rec_outputs: Vec<TxOutRec>, change_spk: &Vec<u8>, change: u64) -> (r: Vec<
    TxOutRec,
>)
    ensures
        outs_model(r@) == spec_final_outputs(outs_model(rec_outputs@), change_spk@, change as int),
{
    let mut outs = rec_outputs;
    if change >= DUST_THRESHOLD_SATS {
        outs.push(TxOutRec { value: change, script_pubkey: slice_to_vec(change_spk.as_slice()) });
    }
    proof {
        assert(outs_model(outs@) =~= spec_final_outputs(
            outs_model(rec_outputs@),
            change_spk@,
            change as int,
        ));
    }
    outs
}

/// The final signature payload of an input: the DER-encoded signature with
/// the one-byte sighash-type code appended.
pub open spec fn sig_blob(pu: ProcessedUtxo, digest: Seq<u8>) -> Seq<u8> {
    ecdsa_sig_der_of(pu.private_key@, digest) + seq![1u8]
}

/// Input `i` of the signed transaction: signature and public key placed in
/// the unlocking script for a legacy input, in the witness for a segwit one.
pub open spec fn signed_input(
    utxos: Seq<ProcessedUtxo>,
    outputs: Seq<TxOutModel>,
    i: int,
) -> TxInModel {
    let pu = utxos[i];
    let blob = sig_blob(pu, spec_input_digest(utxos, outputs, i));
    match pu.script_type {
        ScriptType::P2PKH => TxInModel {
            txid: pu.txid@,
            vout: pu.vout,
            script_sig: push_two(blob, pu.public_key@),
            sequence: pu.sequence,
            witness: Seq::empty(),
        },
        ScriptType::P2WPKH => TxInModel {
            txid: pu.txid@,
            vout: pu.vout,
            script_sig: Seq::empty(),
            sequence: pu.sequence,
            witness: seq![blob, pu.public_key@],
        },
    }
}

/// The fully signed transaction over the given outputs.
pub open spec fn spec_signed_tx(utxos: Seq<ProcessedUtxo>, outputs: Seq<TxOutModel>) -> TxModel {
    TxModel {
        version: 2,
        lock_time: 0,
        inputs: Seq::new(utxos.len(), |i: int| signed_input(utxos, outputs, i)),
        outputs,
    }
}

/// What the signing pass needs for one input, captured between the digest
/// pass and the signature pass and discarded afterwards.
struct SigningInfo {
    input_index: usize,
    sighash: Vec<u8>,
    private_key: Vec<u8>,
    public_key: Vec<u8>,
    script_type: ScriptType,
}

/// The read-only digest pass: one digest per input, in input order, over the
/// frozen skeleton. No unlocking data is written here.
fn compute_sighashes(utxos: &Vec<ProcessedUtxo>, outputs: &Vec<TxOutRec>) -> (r: Vec<SigningInfo>)
    requires
        forall|i: int| 0 <= i < utxos@.len() ==> (#[trigger] utxos@[i]).wf(),
    ensures
        r@.len() == utxos@.len(),
        forall|i: int|
            0 <= i < r@.len() ==> {
                let info = #[trigger] r@[i];
                &&& info.input_index == i
                &&& info.sighash@ == spec_input_digest(utxos@, outs_model(outputs@), i)
                &&& info.sighash@.len() == 32
                &&& info.private_key@ == utxos@[i].private_key@
                &&& info.public_key@ == utxos@[i].public_key@
                &&& info.script_type == utxos@[i].script_type
            },
{
    let mut infos: Vec<SigningInfo> = Vec::new();
    let mut i: usize = 0;
    while i < utxos.len()
        invariant
            i <= utxos@.len(),
            infos@.len() == i,
            forall|k: int| 0 <= k < utxos@.len() ==> (#[trigger] utxos@[k]).wf(),
            forall|k: int|
                0 <= k < i ==> {
                    let info = #[trigger] infos@[k];
                    &&& info.input_index == k
                    &&& info.sighash@ == spec_input_digest(utxos@, outs_model(outputs@), k)
                    &&& info.sighash@.len() == 32
                    &&& info.private_key@ == utxos@[k].private_key@
                    &&& info.public_key@ == utxos@[k].public_key@
                    &&& info.script_type == utxos@[k].script_type
                },
        decreases utxos@.len() - i,
    {
        let sighash = compute_input_digest(utxos, outputs, i);
        infos.push(
            SigningInfo {
                input_index: i,
                sighash,
                private_key: slice_to_vec(utxos[i].private_key.as_slice()),
                public_key: slice_to_vec(utxos[i].public_key.as_slice()),
                script_type: utxos[i].script_type,
            },
        );
        i = i + 1;
    }
    infos
}

/// The write pass: sign each captured digest and place the unlocking data,
/// keyed by input index, into a fresh input list. Every key passed the
/// scalar check at normalization, so signing always succeeds.
fn build_signed_tx(utxos: &Vec<ProcessedUtxo>, infos: &Vec<SigningInfo>, outputs: Vec<TxOutRec>) -> (r:
    Result<Tx, AppError>)
    requires
        infos@.len() == utxos@.len(),
        forall|i: int| 0 <= i < utxos@.len() ==> (#[trigger] utxos@[i]).wf(),
        forall|i: int|
            0 <= i < infos@.len() ==> {
                let info = #[trigger] infos@[i];
                &&& info.sighash@ == spec_input_digest(utxos@, outs_model(outputs@), i)
                &&& info.sighash@.len() == 32
                &&& info.private_key@ == utxos@[i].private_key@
                &&& info.public_key@ == utxos@[i].public_key@
                &&& info.script_type == utxos@[i].script_type
            },
    ensures
        r is Ok,
        r matches Ok(tx) ==> tx@ == spec_signed_tx(utxos@, outs_model(outputs@)),
{
    let ghost outm = outs_model(outputs@);
    let mut inputs: Vec<TxInRec> = Vec::new();
    let mut i: usize = 0;
    while i < utxos.len()
        invariant
            i <= utxos@.len(),
            inputs@.len() == i,
            outm == outs_model(outputs@),
            infos@.len() == utxos@.len(),
            forall|k: int| 0 <= k < utxos@.len() ==> (#[trigger] utxos@[k]).wf(),
            forall|k: int|
                0 <= k < infos@.len() ==> {
                    let info = #[trigger] infos@[k];
                    &&& info.sighash@ == spec_input_digest(utxos@, outm, k)
                    &&& info.sighash@.len() == 32
                    &&& info.private_key@ == utxos@[k].private_key@
                    &&& info.public_key@ == utxos@[k].public_key@
                    &&& info.script_type == utxos@[k].script_type
                },
            forall|k: int| 0 <= k < i ==> #[trigger] inputs@[k]@ == signed_input(utxos@, outm, k),
        decreases utxos@.len() - i,
    {
        let info = &infos[i];
        let der = match sign_ecdsa_der(info.private_key.as_slice(), info.sighash.as_slice()) {
            Ok(v) => v,
            Err(_) => {
                // Normalization only hands over keys that passed the scalar
                // check, under which signing cannot fail.
                proof {
                    assert(false);
                }
                return Err(AppError::SignatureError { input_index: i });
            },
        };
        let mut blob = der;
        blob.push(0x01);
        proof {
            assert(blob@ =~= sig_blob(utxos@[i as int], spec_input_digest(utxos@, outm, i as int)));
        }
        match utxos[i].script_type {
            ScriptType::P2PKH => {
                let script_sig = build_push_two(blob.as_slice(), info.public_key.as_slice());
                inputs.push(
                    TxInRec {
                        txid: slice_to_vec(utxos[i].txid.as_slice()),
                        vout: utxos[i].vout,
                        script_sig,
                        sequence: utxos[i].sequence,
                        witness: Vec::new(),
                    },
                );
                proof {
                    let m = inputs@[i as int]@;
                    let t = signed_input(utxos@, outm, i as int);
                    assert(m.witness =~= t.witness);
                }
            },
            ScriptType::P2WPKH => {
                let mut witness: Vec<Vec<u8>> = Vec::new();
                witness.push(blob);
                witness.push(slice_to_vec(info.public_key.as_slice()));
                inputs.push(
                    TxInRec {
                        txid: slice_to_vec(utxos[i].txid.as_slice()),
                        vout: utxos[i].vout,
                        script_sig: Vec::new(),
                        sequence: utxos[i].sequence,
                        witness,
                    },
                );
                proof {
                    let m = inputs@[i as int]@;
                    let t = signed_input(utxos@, outm, i as int);
                    assert(m.script_sig =~= t.script_sig);
                    assert(m.witness =~~= t.witness);
                }
            },
        }
        i = i + 1;
    }
    let tx = Tx { version: 2, lock_time: 0, inputs, outputs };
    proof {
        let t = spec_signed_tx(utxos@, outm);
        assert(tx@.inputs =~= t.inputs);
        assert(tx@.outputs =~= t.outputs);
    }
    Ok(tx)
}

/// Assemble and sign over normalized values: estimate the fee from the
/// worst-case draft, enforce the funds-sufficiency invariant, apply the dust
/// policy, then compute every digest before any signature is written. The
/// run succeeds exactly when the inputs cover the recipients plus the fee.
pub fn build_and_sign_transaction(
    utxos: &Vec<ProcessedUtxo>,
    recipient_outputs: Vec<TxOutRec>,
    change_spk: &Vec<u8>,
    fee_rate: u64,
) -> (r: Result<Tx, AppError>)
    requires
        forall|i: int| 0 <= i < utxos@.len() ==> (#[trigger] utxos@[i]).wf(),
        sum_utxo_values(utxos@) <= u64::MAX,
        sum_output_values(outs_model(recipient_outputs@)) <= u64::MAX,
    ensures
        ({
            let fee = spec_fee(utxos@, outs_model(recipient_outputs@), change_spk@, fee_rate);
            let total_in = sum_utxo_values(utxos@);
            let total_rec = sum_output_values(outs_model(recipient_outputs@));
            let change = total_in - total_rec - fee;
            &&& (r is Ok <==> total_in >= total_rec + fee)
            &&& (r matches Err(AppError::InsufficientFunds { available, required, fee: f })
                ==> available == total_in && required == total_rec + fee && f == fee)
            &&& (r matches Ok(tx) ==> change >= 0 && tx@ == spec_signed_tx(
                utxos@,
                spec_final_outputs(outs_model(recipient_outputs@), change_spk@, change),
            ))
            &&& (r matches Err(e) ==> e is InsufficientFunds)
        }),
{
    let fee128 = estimate_fee(utxos, &recipient_outputs, change_spk, fee_rate);
    let total_in = total_input_value(utxos);
    let total_rec = total_output_value(&recipient_outputs);
    proof {
        let ghost vs = spec_vsize(draft_tx(utxos@, outs_model(recipient_outputs@), change_spk@));
        assert(vs * fee_rate <= (u64::MAX as int) * (u64::MAX as int)) by (nonlinear_arith)
            requires
                0 <= vs <= u64::MAX as int,
                0 <= fee_rate <= u64::MAX as int,
        ;
        assert((u64::MAX as int) * (u64::MAX as int) + (u64::MAX as int) < u128::MAX as int);
    }
    let required128: u128 = (total_rec as u128) + fee128;
    if (total_in as u128) < required128 {
        return Err(
            AppError::InsufficientFunds {
                available: total_in,
                required: required128,
                fee: fee128,
            },
        );
    }
    let fee64: u64 = fee128 as u64;
    let change: u64 = total_in - total_rec - fee64;
    let final_outputs = apply_dust_policy(recipient_outputs, change_spk, change);
    compute_and_apply(utxos, final_outputs)
}

/// The two-phase digest-then-sign split: all digests are computed and
/// captured first; only then is any unlocking data written.
fn compute_and_apply(utxos: &Vec<ProcessedUtxo>, final_outputs: Vec<TxOutRec>) -> (r: Result<
    Tx,
    AppError,
>)
    requires
        forall|i: int| 0 <= i < utxos@.len() ==> (#[trigger] utxos@[i]).wf(),
    ensures
        r is Ok,
        r matches Ok(tx) ==> tx@ == spec_signed_tx(utxos@, outs_model(final_outputs@)),
{
    let infos = compute_sighashes(utxos, &final_outputs);
    build_signed_tx(utxos, &infos, final_outputs)
}

/// The record's WIF decodes and embeds the key network this run requires.
pub open spec fn spec_key_ok(utxo: UtxoInput, cli_network: Network) -> bool {
    wif_of(utxo.private_key_wif@) matches Some(t) && t.2 == cli_network.spec_key_network()
}

/// The record's transaction id is 64 hexadecimal digits.
pub open spec fn spec_txid_ok(utxo: UtxoInput) -> bool {
    utxo.txid@.len() == 64 && valid_hex_seq(utxo.txid@)
}

/// The record's locking-script field is hexadecimal.
pub open spec fn spec_spk_hex_ok(utxo: UtxoInput) -> bool {
    valid_hex_seq(utxo.script_pubkey_hex@)
}

/// The record's decoded locking script matches a supported pattern.
pub open spec fn spec_spk_classifiable(utxo: UtxoInput) -> bool {
    spec_is_p2pkh(hex_decoded(utxo.script_pubkey_hex@)) || spec_is_p2wpkh(
        hex_decoded(utxo.script_pubkey_hex@),
    )
}

/// Everything normalization checks on one raw record: key, network, outpoint,
/// script, classification. Exactly these records normalize.
pub open spec fn spec_utxo_ok(utxo: UtxoInput, cli_network: Network) -> bool {
    &&& spec_key_ok(utxo, cli_network)
    &&& spec_txid_ok(utxo)
    &&& spec_spk_hex_ok(utxo)
    &&& spec_spk_classifiable(utxo)
}

/// Normalize one raw UTXO: decode the key, check its network, derive the
/// public key, parse the outpoint, decode and classify the locking script,
/// and resolve the sequence number. Checks run in that order and the first
/// failure decides the error; normalization succeeds exactly on records that
/// pass them all.
pub fn process_utxo(utxo: &UtxoInput, cli_network: Network, default_sequence: Option<u32>) -> (r:
    Result<ProcessedUtxo, AppError>)
    ensures
        r is Ok <==> spec_utxo_ok(*utxo, cli_network),
        r matches Ok(pu) ==> {
            &&& pu.wf()
            &&& pu.value == utxo.value_sats
            &&& pu.vout == utxo.vout
            &&& pu.sequence == spec_resolved_sequence(utxo.sequence, default_sequence)
            &&& pu.txid@ == spec_txid_bytes(utxo.txid@)
            &&& pu.script_pubkey@ == hex_decoded(utxo.script_pubkey_hex@)
            &&& wif_of(utxo.private_key_wif@) == Some((pu.private_key@, pu.compressed, cli_network.spec_key_network()))
        },
        (r matches Err(e) && e is BitcoinKey) <==> wif_of(utxo.private_key_wif@) is None,
        (r matches Err(e) && e is NetworkMismatch) <==> (wif_of(utxo.private_key_wif@) matches
            Some(t) && t.2 != cli_network.spec_key_network()),
        (r matches Err(e) && e is InputValidation) <==> (spec_key_ok(*utxo, cli_network) && !(
        spec_txid_ok(*utxo) && spec_spk_hex_ok(*utxo))),
        (r matches Err(e) && e is UnknownScriptType) <==> (spec_key_ok(*utxo, cli_network)
            && spec_txid_ok(*utxo) && spec_spk_hex_ok(*utxo) && !spec_spk_classifiable(*utxo)),
        r matches Err(AppError::NetworkMismatch { cli_network: c, inferred_network: k }) ==> c
            == cli_network && k != cli_network.spec_key_network(),
        r matches Err(AppError::UnknownScriptType { script_hex }) ==> valid_hex_seq(
            utxo.script_pubkey_hex@,
        ) && script_hex@ == hex_string_of(hex_decoded(utxo.script_pubkey_hex@)),
{
    let decoded = match wif_decode(utxo.private_key_wif.as_str()) {
        Ok(t) => t,
        Err(m) => {
            return Err(AppError::BitcoinKey(m));
        },
    };
    let (private_key, compressed, key_net) = decoded;
    if key_net != cli_network.key_network() {
        return Err(AppError::NetworkMismatch { cli_network, inferred_network: key_net });
    }
    let public_key = match derive_pubkey(private_key.as_slice(), compressed) {
        Ok(v) => v,
        Err(_) => {
            // The key came out of a successful WIF decode, so it passed the
            // scalar check; this arm cannot be reached.
            proof {
                assert(false);
            }
            return Err(AppError::Internal("public key derivation failed".to_owned()));
        },
    };
    let txid = match parse_txid(utxo.txid.as_str()) {
        Some(v) => v,
        None => {
            let mut m = "invalid transaction id: ".to_owned();
            m.append(utxo.txid.as_str());
            return Err(AppError::InputValidation(m));
        },
    };
    let script_pubkey = match hex_decode(utxo.script_pubkey_hex.as_str()) {
        Some(v) => v,
        None => {
            let mut m = "invalid locking script hex: ".to_owned();
            m.append(utxo.script_pubkey_hex.as_str());
            return Err(AppError::InputValidation(m));
        },
    };
    let script_type = match ScriptType::from_script_buf(script_pubkey.as_slice()) {
        Ok(t) => t,
        Err(e) => {
            return Err(e);
        },
    };
    let sequence: u32 = match utxo.sequence {
        Some(s) => s,
        None => match default_sequence {
            Some(d) => d,
            None => 0xffff_ffff,
        },
    };
    Ok(
        ProcessedUtxo {
            txid,
            vout: utxo.vout,
            script_pubkey,
            value: utxo.value_sats,
            private_key,
            compressed,
            public_key,
            script_type,
            sequence,
        },
    )
}

/// Turn each payment into an output: the address's locking script and the
/// configured value, in configuration order. Conversion succeeds exactly
/// when every address resolves for the run's network; the first failing
/// address decides the error.
pub fn convert_outputs(outputs: &Vec<TransactionOutputDef>, cli_network: Network) -> (r: Result<
    Vec<TxOutRec>,
    AppError,
>)
    ensures
        r is Ok <==> (forall|i: int|
            0 <= i < outputs@.len() ==> addr_ok(#[trigger] outputs@[i].address@, cli_network)),
        r matches Ok(v) ==> v@.len() == outputs@.len() && forall|i: int|
            0 <= i < outputs@.len() ==> (#[trigger] v@[i])@.value == outputs@[i].value_sats
                && v@[i]@.script_pubkey == address_spk_of(outputs@[i].address@),
        r matches Err(e) ==> e is InputValidation,
        r is Err ==> exists|i: int|
            0 <= i < outputs@.len() && !addr_ok(#[trigger] outputs@[i].address@, cli_network) && (
            forall|j: int| 0 <= j < i ==> addr_ok(#[trigger] outputs@[j].address@, cli_network)),
{
    let mut out: Vec<TxOutRec> = Vec::new();
    let mut i: usize = 0;
    while i < outputs.len()
        invariant
            i <= outputs@.len(),
            out@.len() == i,
            forall|k: int| 0 <= k < i ==> addr_ok(#[trigger] outputs@[k].address@, cli_network),
            forall|k: int|
                0 <= k < i ==> (#[trigger] out@[k])@.value == outputs@[k].value_sats
                    && out@[k]@.script_pubkey == address_spk_of(outputs@[k].address@),
        decreases outputs@.len() - i,
    {
        let spk = match addr_to_spk(outputs[i].address.as_str(), cli_network) {
            Ok(v) => v,
            Err(cause) => {
                let mut m = "invalid recipient address: ".to_owned();
                m.append(outputs[i].address.as_str());
                m.append(": ");
                m.append(cause.as_str());
                return Err(AppError::InputValidation(m));
            },
        };
        out.push(TxOutRec { value: outputs[i].value_sats, script_pubkey: spk });
        i = i + 1;
    }
    Ok(out)
}

/// A normalized record list agrees with the raw configuration: same length,
/// and every record well formed with the configured outpoint, value, script,
/// resolved sequence, and the key the record's WIF string decodes to.
pub open spec fn normalized_matches(
    pus: Seq<ProcessedUtxo>,
    raw: Seq<UtxoInput>,
    default_sequence: Option<u32>,
) -> bool {
    &&& pus.len() == raw.len()
    &&& forall|i: int|
        0 <= i < raw.len() ==> {
            let pu = #[trigger] pus[i];
            &&& pu.wf()
            &&& pu.value == raw[i].value_sats
            &&& pu.vout == raw[i].vout
            &&& pu.sequence == spec_resolved_sequence(raw[i].sequence, default_sequence)
            &&& raw[i].txid@.len() == 64
            &&& valid_hex_seq(raw[i].txid@)
            &&& pu.txid@ == spec_txid_bytes(raw[i].txid@)
            &&& valid_hex_seq(raw[i].script_pubkey_hex@)
            &&& pu.script_pubkey@ == hex_decoded(raw[i].script_pubkey_hex@)
            &&& (wif_of(raw[i].private_key_wif@) matches Some(t) && pu.private_key@ == t.0
                && pu.compressed == t.1)
        }
}

/// Two processed records carry the same data in every field the engine
/// reads.
pub open spec fn pu_view_eq(a: ProcessedUtxo, b: ProcessedUtxo) -> bool {
    &&& a.txid@ == b.txid@
    &&& a.vout == b.vout
    &&& a.script_pubkey@ == b.script_pubkey@
    &&& a.value == b.value
    &&& a.private_key@ == b.private_key@
    &&& a.compressed == b.compressed
    &&& a.public_key@ == b.public_key@
    &&& a.script_type == b.script_type
    &&& a.sequence == b.sequence
}

/// Two normalized record lists that agree with the same raw configuration
/// agree in every field the engine reads: normalization leaves nothing to
/// chance.
pub proof fn lemma_matched_views_agree(
    pus1: Seq<ProcessedUtxo>,
    pus2: Seq<ProcessedUtxo>,
    raw: Seq<UtxoInput>,
    default_sequence: Option<u32>,
)
    requires
        normalized_matches(pus1, raw, default_sequence),
        normalized_matches(pus2, raw, default_sequence),
    ensures
        pus1.len() == pus2.len(),
        forall|i: int| 0 <= i < pus1.len() ==> pu_view_eq(#[trigger] pus1[i], #[trigger] pus2[i]),
{
    assert forall|i: int| 0 <= i < pus1.len() implies pu_view_eq(
        #[trigger] pus1[i],
        #[trigger] pus2[i],
    ) by {
        let a = pus1[i];
        let b = pus2[i];
        assert(a.private_key@ == b.private_key@ && a.compressed == b.compressed);
        assert(a.public_key@ == b.public_key@);
        if spec_is_p2pkh(a.script_pubkey@) {
            assert(a.script_type == ScriptType::P2PKH && b.script_type == ScriptType::P2PKH);
        } else if spec_is_p2wpkh(a.script_pubkey@) {
            assert(a.script_type == ScriptType::P2WPKH && b.script_type == ScriptType::P2WPKH);
        } else {
            assert(a.script_type != ScriptType::P2PKH && a.script_type != ScriptType::P2WPKH);
            assert(false);
        }
    }
}

/// Fee determinism: any two normalized record lists that agree with the same
/// raw configuration give the same draft and the same fee, for any outputs,
/// change script and fee rate.
pub proof fn lemma_fee_deterministic(
    pus1: Seq<ProcessedUtxo>,
    pus2: Seq<ProcessedUtxo>,
    raw: Seq<UtxoInput>,
    default_sequence: Option<u32>,
    rec: Seq<TxOutModel>,
    change_spk: Seq<u8>,
    fee_rate: u64,
)
    requires
        normalized_matches(pus1, raw, default_sequence),
        normalized_matches(pus2, raw, default_sequence),
    ensures
        draft_tx(pus1, rec, change_spk) == draft_tx(pus2, rec, change_spk),
        spec_fee(pus1, rec, change_spk, fee_rate) == spec_fee(pus2, rec, change_spk, fee_rate),
{
    lemma_matched_views_agree(pus1, pus2, raw, default_sequence);
    assert forall|i: int| 0 <= i < pus1.len() implies #[trigger] draft_input(pus1[i])
        == draft_input(pus2[i]) by {
        assert(pu_view_eq(pus1[i], pus2[i]));
    }
    assert(draft_tx(pus1, rec, change_spk).inputs =~= draft_tx(pus2, rec, change_spk).inputs);
}

/// Signing determinism: any two normalized record lists that agree with the
/// same raw configuration produce the same signed transaction over the same
/// outputs. With the deterministic nonces of the signing backend, a whole
/// run is a function of its configuration.
pub proof fn lemma_signed_tx_deterministic(
    pus1: Seq<ProcessedUtxo>,
    pus2: Seq<ProcessedUtxo>,
    raw: Seq<UtxoInput>,
    default_sequence: Option<u32>,
    outs: Seq<TxOutModel>,
)
    requires
        normalized_matches(pus1, raw, default_sequence),
        normalized_matches(pus2, raw, default_sequence),
    ensures
        spec_signed_tx(pus1, outs) == spec_signed_tx(pus2, outs),
{
    lemma_matched_views_agree(pus1, pus2, raw, default_sequence);
    assert(skeleton_inputs(pus1) =~= skeleton_inputs(pus2));
    assert forall|idx: int| 0 <= idx < pus1.len() implies #[trigger] signed_input(pus1, outs, idx)
        == signed_input(pus2, outs, idx) by {
        assert(pu_view_eq(pus1[idx], pus2[idx]));
        assert(legacy_variant_inputs(pus1, idx) =~= legacy_variant_inputs(pus2, idx));
        assert(legacy_sighash_preimage(pus1, outs, idx) == legacy_sighash_preimage(
            pus2,
            outs,
            idx,
        ));
        assert(bip143_preimage(pus1, outs, idx) == bip143_preimage(pus2, outs, idx));
        assert(spec_input_digest(pus1, outs, idx) == spec_input_digest(pus2, outs, idx));
    }
    assert(spec_signed_tx(pus1, outs).inputs =~= spec_signed_tx(pus2, outs).inputs);
}

/// The recipient outputs a configuration's payment list denotes.
pub open spec fn spec_recipient_outputs(raw: Seq<TransactionOutputDef>) -> Seq<TxOutModel> {
    Seq::new(
        raw.len(),
        |i: int|
            TxOutModel {
                value: raw[i].value_sats,
                script_pubkey: address_spk_of(raw[i].address@),
            },
    )
}

/// Every raw UTXO record passes normalization.
pub open spec fn spec_inputs_ok(utxos: Seq<UtxoInput>, cli_network: Network) -> bool {
    forall|i: int| 0 <= i < utxos.len() ==> spec_utxo_ok(#[trigger] utxos[i], cli_network)
}

/// The records before index `n` all pass normalization.
pub open spec fn utxos_ok_before(utxos: Seq<UtxoInput>, cli_network: Network, n: int) -> bool {
    forall|j: int| 0 <= j < n ==> spec_utxo_ok(#[trigger] utxos[j], cli_network)
}

/// Every payment's address resolves for the run's network.
pub open spec fn spec_outputs_ok(outs: Seq<TransactionOutputDef>, cli_network: Network) -> bool {
    forall|i: int| 0 <= i < outs.len() ==> addr_ok(#[trigger] outs[i].address@, cli_network)
}

/// The configured input total covers the recipients plus the fee, for every
/// record list the configuration normalizes to. By `lemma_fee_deterministic`
/// all such lists give the same fee, so this is the funds-sufficiency
/// condition of the run.
pub open spec fn spec_funds_cover(
    utxos: Seq<UtxoInput>,
    outs: Seq<TransactionOutputDef>,
    change_address: Seq<char>,
    fee_rate: u64,
    default_sequence: Option<u32>,
) -> bool {
    forall|pus: Seq<ProcessedUtxo>|
        #[trigger] normalized_matches(pus, utxos, default_sequence) ==> sum_raw_input_values(utxos)
            >= sum_raw_output_values(outs) + spec_fee(
            pus,
            spec_recipient_outputs(outs),
            address_spk_of(change_address),
            fee_rate,
        )
}

/// The whole engine: normalize, convert payments, estimate the fee, enforce
/// sufficiency, apply the dust policy, compute all digests, sign, assemble.
/// Any failure aborts the run; no partial transaction is ever returned. The
/// run succeeds exactly when every record and address validates and the
/// funds cover the recipients plus the fee; the first failure, in
/// normalization order, decides the error.
pub fn create_and_sign_transaction(config: &InputConfig, cli_network: Network) -> (r: Result<
    Tx,
    AppError,
>)
    requires
        sum_raw_input_values(config.utxos@) <= u64::MAX,
        sum_raw_output_values(config.outputs@) <= u64::MAX,
    ensures
        r is Ok <==> (spec_inputs_ok(config.utxos@, cli_network) && spec_outputs_ok(
            config.outputs@,
            cli_network,
        ) && addr_ok(config.change_address@, cli_network) && spec_funds_cover(
            config.utxos@,
            config.outputs@,
            config.change_address@,
            config.fee_rate_sats_per_vb,
            config.default_sequence,
        )),
        r matches Ok(tx) ==> exists|pus: Seq<ProcessedUtxo>|
            {
                let rec = spec_recipient_outputs(config.outputs@);
                let spk = address_spk_of(config.change_address@);
                let fee = spec_fee(pus, rec, spk, config.fee_rate_sats_per_vb);
                let change = sum_raw_input_values(config.utxos@) - sum_raw_output_values(
                    config.outputs@,
                ) - fee;
                &&& #[trigger] normalized_matches(pus, config.utxos@, config.default_sequence)
                &&& change >= 0
                &&& tx@ == spec_signed_tx(pus, spec_final_outputs(rec, spk, change))
            },
        r matches Err(e) ==> (e is BitcoinKey || e is NetworkMismatch || e is InputValidation || e
            is UnknownScriptType || e is ChangeAddressDerivation || e is InsufficientFunds),
        (r matches Err(e) && e is ChangeAddressDerivation) <==> (spec_inputs_ok(
            config.utxos@,
            cli_network,
        ) && spec_outputs_ok(config.outputs@, cli_network) && !addr_ok(
            config.change_address@,
            cli_network,
        )),
        (r matches Err(e) && e is InsufficientFunds) <==> (spec_inputs_ok(
            config.utxos@,
            cli_network,
        ) && spec_outputs_ok(config.outputs@, cli_network) && addr_ok(
            config.change_address@,
            cli_network,
        ) && !spec_funds_cover(
            config.utxos@,
            config.outputs@,
            config.change_address@,
            config.fee_rate_sats_per_vb,
            config.default_sequence,
        )),
        r matches Err(AppError::InsufficientFunds { available, required, fee }) ==> available
            == sum_raw_input_values(config.utxos@) && required == sum_raw_output_values(
            config.outputs@,
        ) + fee && available < required && (exists|pus: Seq<ProcessedUtxo>|
            #[trigger] normalized_matches(pus, config.utxos@, config.default_sequence) && fee
                == spec_fee(
                pus,
                spec_recipient_outputs(config.outputs@),
                address_spk_of(config.change_address@),
                config.fee_rate_sats_per_vb,
            )),
        (r matches Err(e) && e is BitcoinKey) ==> exists|i: int|
            0 <= i < config.utxos@.len() && utxos_ok_before(config.utxos@, cli_network, i)
                && wif_of(#[trigger] config.utxos@[i].private_key_wif@) is None,
        (r matches Err(e) && e is NetworkMismatch) ==> exists|i: int|
            0 <= i < config.utxos@.len() && utxos_ok_before(config.utxos@, cli_network, i) && (
            wif_of(#[trigger] config.utxos@[i].private_key_wif@) matches Some(t) && t.2
                != cli_network.spec_key_network()),
        (r matches Err(e) && e is UnknownScriptType) ==> exists|i: int|
            0 <= i < config.utxos@.len() && utxos_ok_before(config.utxos@, cli_network, i)
                && spec_key_ok(#[trigger] config.utxos@[i], cli_network) && spec_txid_ok(
                config.utxos@[i],
            ) && spec_spk_hex_ok(config.utxos@[i]) && !spec_spk_classifiable(config.utxos@[i]),
        (r matches Err(e) && e is InputValidation) ==> ((exists|i: int|
            0 <= i < config.utxos@.len() && utxos_ok_before(config.utxos@, cli_network, i)
                && spec_key_ok(#[trigger] config.utxos@[i], cli_network) && !(spec_txid_ok(
                config.utxos@[i],
            ) && spec_spk_hex_ok(config.utxos@[i]))) || (spec_inputs_ok(config.utxos@, cli_network)
            && exists|k: int|
            0 <= k < config.outputs@.len() && !addr_ok(
                #[trigger] config.outputs@[k].address@,
                cli_network,
            ) && (forall|j: int|
                0 <= j < k ==> addr_ok(#[trigger] config.outputs@[j].address@, cli_network)))),
{
    let mut processed: Vec<ProcessedUtxo> = Vec::new();
    let mut i: usize = 0;
    while i < config.utxos.len()
        invariant
            i <= config.utxos@.len(),
            processed@.len() == i,
            forall|k: int|
                0 <= k < i ==> spec_utxo_ok(#[trigger] config.utxos@[k], cli_network),
            forall|k: int|
                0 <= k < i ==> {
                    let pu = #[trigger] processed@[k];
                    &&& pu.wf()
                    &&& pu.value == config.utxos@[k].value_sats
                    &&& pu.vout == config.utxos@[k].vout
                    &&& pu.sequence == spec_resolved_sequence(
                        config.utxos@[k].sequence,
                        config.default_sequence,
                    )
                    &&& config.utxos@[k].txid@.len() == 64
                    &&& valid_hex_seq(config.utxos@[k].txid@)
                    &&& pu.txid@ == spec_txid_bytes(config.utxos@[k].txid@)
                    &&& valid_hex_seq(config.utxos@[k].script_pubkey_hex@)
                    &&& pu.script_pubkey@ == hex_decoded(config.utxos@[k].script_pubkey_hex@)
                    &&& (wif_of(config.utxos@[k].private_key_wif@) matches Some(t)
                        && pu.private_key@ == t.0 && pu.compressed == t.1)
                },
        decreases config.utxos@.len() - i,
    {
        let pu = match process_utxo(&config.utxos[i], cli_network, config.default_sequence) {
            Ok(p) => p,
            Err(e) => {
                proof {
                    assert(!spec_utxo_ok(config.utxos@[i as int], cli_network));
                    assert(!spec_inputs_ok(config.utxos@, cli_network));
                    assert(utxos_ok_before(config.utxos@, cli_network, i as int));
                }
                return Err(e);
            },
        };
        processed.push(pu);
        i = i + 1;
    }
    let rec_outputs = match convert_outputs(&config.outputs, cli_network) {
        Ok(v) => v,
        Err(e) => {
            proof {
                assert(spec_inputs_ok(config.utxos@, cli_network));
                assert(!spec_outputs_ok(config.outputs@, cli_network));
            }
            return Err(e);
        },
    };
    let change_spk = match addr_to_spk(config.change_address.as_str(), cli_network) {
        Ok(v) => v,
        Err(cause) => {
            let mut m = "invalid change address: ".to_owned();
            m.append(config.change_address.as_str());
            m.append(": ");
            m.append(cause.as_str());
            proof {
                assert(spec_inputs_ok(config.utxos@, cli_network));
                assert(spec_outputs_ok(config.outputs@, cli_network));
                assert(!addr_ok(config.change_address@, cli_network));
            }
            return Err(AppError::ChangeAddressDerivation(m));
        },
    };
    proof {
        assert(normalized_matches(processed@, config.utxos@, config.default_sequence));
        lemma_sum_utxo_matches_raw(processed@, config.utxos@);
        assert(outs_model(rec_outputs@) =~= spec_recipient_outputs(config.outputs@));
        lemma_sum_output_matches_raw(outs_model(rec_outputs@), config.outputs@);
    }
    let ghost pus = processed@;
    let r = build_and_sign_transaction(
        &processed,
        rec_outputs,
        &change_spk,
        config.fee_rate_sats_per_vb,
    );
    proof {
        let rec = spec_recipient_outputs(config.outputs@);
        let spk = address_spk_of(config.change_address@);
        let fee = spec_fee(pus, rec, spk, config.fee_rate_sats_per_vb);
        assert(spec_inputs_ok(config.utxos@, cli_network));
        assert(spec_outputs_ok(config.outputs@, cli_network));
        assert(addr_ok(config.change_address@, cli_network));
        assert(spec_fee(pus, outs_model(rec_outputs@), change_spk@, config.fee_rate_sats_per_vb)
            == fee);
        if r is Ok {
            let change = sum_raw_input_values(config.utxos@) - sum_raw_output_values(
                config.outputs@,
            ) - fee;
            assert(normalized_matches(pus, config.utxos@, config.default_sequence) && change >= 0
                && r->Ok_0@ == spec_signed_tx(pus, spec_final_outputs(rec, spk, change)));
            // Sufficiency held for the computed records; by fee determinism it
            // holds for every record list the configuration normalizes to.
            assert forall|pus2: Seq<ProcessedUtxo>|
                #[trigger] normalized_matches(pus2, config.utxos@, config.default_sequence)
                    implies sum_raw_input_values(config.utxos@) >= sum_raw_output_values(
                config.outputs@,
            ) + spec_fee(pus2, rec, spk, config.fee_rate_sats_per_vb) by {
                lemma_fee_deterministic(
                    pus2,
                    pus,
                    config.utxos@,
                    config.default_sequence,
                    rec,
                    spk,
                    config.fee_rate_sats_per_vb,
                );
            }
        } else {
            // The only failure left is insufficiency, witnessed by the
            // computed records.
            assert(sum_raw_input_values(config.utxos@) < sum_raw_output_values(config.outputs@)
                + fee);
            assert(!spec_funds_cover(
                config.utxos@,
                config.outputs@,
                config.change_address@,
                config.fee_rate_sats_per_vb,
                config.default_sequence,
            ));
        }
    }
    r
}

/// Money conservation: on the sufficient-funds path the final outputs carry
/// the recipients' total plus the change output when it reaches the dust
/// threshold; input total equals output total plus fee plus any absorbed
/// change.
pub proof fn lemma_value_conservation(
    utxos: Seq<ProcessedUtxo>,
    rec: Seq<TxOutModel>,
    change_spk: Seq<u8>,
    fee_rate: u64,
)
    requires
        sum_utxo_values(utxos) >= sum_output_values(rec) + spec_fee(
            utxos,
            rec,
            change_spk,
            fee_rate,
        ),
        sum_utxo_values(utxos) <= u64::MAX,
    ensures
        ({
            let fee = spec_fee(utxos, rec, change_spk, fee_rate);
            let change = sum_utxo_values(utxos) - sum_output_values(rec) - fee;
            let outs = spec_final_outputs(rec, change_spk, change);
            &&& sum_output_values(outs) == sum_output_values(rec) + (if change
                >= DUST_THRESHOLD_SATS {
                change
            } else {
                0
            })
            &&& sum_utxo_values(utxos) == sum_output_values(outs) + fee + (if change
                >= DUST_THRESHOLD_SATS {
                0
            } else {
                change
            })
        }),
{
    let fee = spec_fee(utxos, rec, change_spk, fee_rate);
    let change = sum_utxo_values(utxos) - sum_output_values(rec) - fee;
    lemma_sum_output_nonneg(rec);
    assert(fee >= 0) by (nonlinear_arith)
        requires
            fee == spec_vsize(draft_tx(utxos, rec, change_spk)) * fee_rate,
            fee_rate >= 0,
    ;
    if change >= DUST_THRESHOLD_SATS {
        let outs = spec_final_outputs(rec, change_spk, change);
        assert(0 <= change <= u64::MAX);
        assert(outs.drop_last() =~= rec);
        assert(outs.last().value == change as u64);
    }
}

/// The fee is the worst-case draft's virtual size times the fee rate, and
/// nothing else: identical UTXOs, outputs, change script and rate always
/// give the same fee.
pub proof fn lemma_fee_formula(
    utxos: Seq<ProcessedUtxo>,
    rec: Seq<TxOutModel>,
    change_spk: Seq<u8>,
    fee_rate: u64,
)
    ensures
        spec_fee(utxos, rec, change_spk, fee_rate) == spec_vsize(draft_tx(utxos, rec, change_spk))
            * fee_rate,
{
}

/// The dust rule: change at or above the threshold always appends exactly
/// one change output of exactly that value; change below it never appends
/// an output.
pub proof fn lemma_dust_policy(rec: Seq<TxOutModel>, change_spk: Seq<u8>, change: int)
    ensures
        change >= DUST_THRESHOLD_SATS ==> {
            let outs = spec_final_outputs(rec, change_spk, change);
            &&& outs.len() == rec.len() + 1
            &&& outs.take(rec.len() as int) == rec
            &&& outs.last() == TxOutModel { value: change as u64, script_pubkey: change_spk }
        },
        change < DUST_THRESHOLD_SATS ==> spec_final_outputs(rec, change_spk, change) == rec,
{
    if change >= DUST_THRESHOLD_SATS {
        assert(spec_final_outputs(rec, change_spk, change).take(rec.len() as int) =~= rec);
    }
}

} // verus!
