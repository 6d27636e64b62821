//! The sighash engine: the exact digest each input's signature commits to.
//! Legacy inputs use the historical whole-transaction variant; witness
//! inputs use the BIP143 preimage. Both digests are double SHA-256 with the
//! all-outputs signature mode.

use vstd::prelude::*;
use vstd::slice::slice_to_vec;
use crate::bridge::{sha256d, sha256d_of};
use crate::encode::{
    le32,
    le64,
    varint,
    outs_model,
    push_le32,
    push_le64,
    push_varint,
    push_output,
    ser_outpoints,
    ser_outputs,
    ser_sequences,
    ser_tx_base,
    serialize_tx_base,
    lemma_ser_outpoints_take,
    lemma_ser_outputs_take,
    lemma_ser_sequences_take,
    Tx,
    TxInModel,
    TxInRec,
    TxModel,
    TxOutModel,
    TxOutRec,
};
use crate::script::{build_p2wpkh_script_code, p2wpkh_script_code, spec_is_p2wpkh};
use crate::types::{ProcessedUtxo, ScriptType};

verus! {

/// The signature mode this engine always uses: sign all outputs.
pub open spec fn spec_sighash_all() -> u32 {
    1
}

/// The input list of the frozen unsigned skeleton: one input per UTXO, empty
/// unlocking data.
pub open spec fn skeleton_input(pu: ProcessedUtxo) -> TxInModel {
    TxInModel {
        txid: pu.txid@,
        vout: pu.vout,
        script_sig: Seq::empty(),
        sequence: pu.sequence,
        witness: Seq::empty(),
    }
}

pub open spec fn skeleton_inputs(utxos: Seq<ProcessedUtxo>) -> Seq<TxInModel> {
    Seq::new(utxos.len(), |i: int| skeleton_input(utxos[i]))
}

/// Inputs of the legacy digest's transaction variant: input `idx` carries
/// the spent output's locking script, every other input an empty script.
pub open spec fn legacy_variant_inputs(utxos: Seq<ProcessedUtxo>, idx: int) -> Seq<TxInModel> {
    Seq::new(
        utxos.len(),
        |i: int|
            TxInModel {
                txid: utxos[i].txid@,
                vout: utxos[i].vout,
                script_sig: if i == idx {
                    utxos[idx].script_pubkey@
                } else {
                    Seq::empty()
                },
                sequence: utxos[i].sequence,
                witness: Seq::empty(),
            },
    )
}

/// Bytes the legacy digest is computed over: the serialized transaction
/// variant followed by the four-byte sighash-type code.
pub open spec fn legacy_sighash_preimage(
    utxos: Seq<ProcessedUtxo>,
    outputs: Seq<TxOutModel>,
    idx: int,
) -> Seq<u8> {
    ser_tx_base(
        TxModel {
            version: 2,
            lock_time: 0,
            inputs: legacy_variant_inputs(utxos, idx),
            outputs: outputs,
        },
    ) + le32(spec_sighash_all())
}

/// The legacy signing digest of input `idx`.
pub open spec fn spec_legacy_sighash(
    utxos: Seq<ProcessedUtxo>,
    outputs: Seq<TxOutModel>,
    idx: int,
) -> Seq<u8> {
    sha256d_of(legacy_sighash_preimage(utxos, outputs, idx))
}

/// Bytes the BIP143 digest is computed over.
pub open spec fn bip143_preimage(
    utxos: Seq<ProcessedUtxo>,
    outputs: Seq<TxOutModel>,
    idx: int,
) -> Seq<u8> {
    le32(2) + sha256d_of(ser_outpoints(skeleton_inputs(utxos))) + sha256d_of(
        ser_sequences(skeleton_inputs(utxos)),
    ) + utxos[idx].txid@ + le32(utxos[idx].vout) + varint(25) + p2wpkh_script_code(
        utxos[idx].script_pubkey@,
    ) + le64(utxos[idx].value) + le32(utxos[idx].sequence) + sha256d_of(ser_outputs(outputs))
        + le32(0) + le32(spec_sighash_all())
}

/// The BIP143 signing digest of input `idx`.
pub open spec fn spec_segwit_sighash(
    utxos: Seq<ProcessedUtxo>,
    outputs: Seq<TxOutModel>,
    idx: int,
) -> Seq<u8> {
    sha256d_of(bip143_preimage(utxos, outputs, idx))
}

/// The digest input `idx` signs, selected by its script type.
pub open spec fn spec_input_digest(
    utxos: Seq<ProcessedUtxo>,
    outputs: Seq<TxOutModel>,
    idx: int,
) -> Seq<u8> {
    match utxos[idx].script_type {
        ScriptType::P2PKH => spec_legacy_sighash(utxos, outputs, idx),
        ScriptType::P2WPKH => spec_segwit_sighash(utxos, outputs, idx),
    }
}

/// An owned copy of an output list.
pub fn clone_outputs(outputs: &Vec<TxOutRec>) -> (r: Vec<TxOutRec>)
    ensures
        outs_model(r@) == outs_model(outputs@),
        r@.len() == outputs@.len(),
{
    let mut out: Vec<TxOutRec> = Vec::new();
    let mut i: usize = 0;
    while i < outputs.len()
        invariant
            i <= outputs@.len(),
            out@.len() == i,
            forall|k: int| 0 <= k < i ==> #[trigger] out@[k]@ == outputs@[k]@,
        decreases outputs@.len() - i,
    {
        out.push(
            TxOutRec {
                value: outputs[i].value,
                script_pubkey: slice_to_vec(outputs[i].script_pubkey.as_slice()),
            },
        );
        i = i + 1;
    }
    proof {
        assert(outs_model(out@) =~= outs_model(outputs@));
    }
    out
}

/// Compute the legacy digest of input `idx` over the frozen skeleton.
pub fn compute_legacy_sighash(utxos: &Vec<ProcessedUtxo>, outputs: &Vec<TxOutRec>, idx: usize) -> (r:
    Vec<u8>)
    requires
        idx < utxos@.len(),
    ensures
        r@ == spec_legacy_sighash(utxos@, outs_model(outputs@), idx as int),
        r@.len() == 32,
{
    let mut inputs: Vec<TxInRec> = Vec::new();
    let mut i: usize = 0;
    while i < utxos.len()
        invariant
            i <= utxos@.len(),
            idx < utxos@.len(),
            inputs@.len() == i,
            forall|k: int|
                0 <= k < i ==> #[trigger] inputs@[k]@ == legacy_variant_inputs(
                    utxos@,
                    idx as int,
                )[k],
        decreases utxos@.len() - i,
    {
        let script_sig: Vec<u8> = if i == idx {
            slice_to_vec(utxos[i].script_pubkey.as_slice())
        } else {
            Vec::new()
        };
        inputs.push(
            TxInRec {
                txid: slice_to_vec(utxos[i].txid.as_slice()),
                vout: utxos[i].vout,
                script_sig,
                sequence: utxos[i].sequence,
                witness: Vec::new(),
            },
        );
        proof {
            let m = inputs@[i as int]@;
            let t = legacy_variant_inputs(utxos@, idx as int)[i as int];
            assert(m.txid =~= t.txid);
            assert(m.script_sig =~= t.script_sig);
            assert(m.witness =~= t.witness);
        }
        i = i + 1;
    }
    let tx = Tx { version: 2, lock_time: 0, inputs, outputs: clone_outputs(outputs) };
    proof {
        assert(tx@.inputs =~= legacy_variant_inputs(utxos@, idx as int));
        assert(tx@.outputs =~= outs_model(outputs@));
    }
    let mut pre = serialize_tx_base(&tx);
    push_le32(&mut pre, 1);
    proof {
        assert(pre@ =~= legacy_sighash_preimage(utxos@, outs_model(outputs@), idx as int));
    }
    sha256d(pre.as_slice())
}

/// Compute the BIP143 digest of input `idx` over the frozen skeleton.
pub fn compute_segwit_sighash(utxos: &Vec<ProcessedUtxo>, outputs: &Vec<TxOutRec>, idx: usize) -> (r:
    Vec<u8>)
    requires
        idx < utxos@.len(),
        spec_is_p2wpkh(utxos@[idx as int].script_pubkey@),
    ensures
        r@ == spec_segwit_sighash(utxos@, outs_model(outputs@), idx as int),
        r@.len() == 32,
{
    let ghost skel = skeleton_inputs(utxos@);
    let mut prevouts: Vec<u8> = Vec::new();
    let mut i: usize = 0;
    while i < utxos.len()
        invariant
            i <= utxos@.len(),
            skel == skeleton_inputs(utxos@),
            skel.len() == utxos@.len(),
            prevouts@ == ser_outpoints(skel.take(i as int)),
        decreases utxos@.len() - i,
    {
        prevouts.extend_from_slice(utxos[i].txid.as_slice());
        push_le32(&mut prevouts, utxos[i].vout);
        proof {
            lemma_ser_outpoints_take(skel, i as int);
            assert(prevouts@ =~= ser_outpoints(skel.take(i + 1)));
        }
        i = i + 1;
    }
    proof {
        assert(skel.take(skel.len() as int) =~= skel);
    }
    let hash_prevouts = sha256d(prevouts.as_slice());

    let mut seqs: Vec<u8> = Vec::new();
    let mut j: usize = 0;
    while j < utxos.len()
        invariant
            j <= utxos@.len(),
            skel == skeleton_inputs(utxos@),
            skel.len() == utxos@.len(),
            seqs@ == ser_sequences(skel.take(j as int)),
        decreases utxos@.len() - j,
    {
        push_le32(&mut seqs, utxos[j].sequence);
        proof {
            lemma_ser_sequences_take(skel, j as int);
            assert(seqs@ =~= ser_sequences(skel.take(j + 1)));
        }
        j = j + 1;
    }
    proof {
        assert(skel.take(skel.len() as int) =~= skel);
    }
    let hash_sequence = sha256d(seqs.as_slice());

    let mut outs_ser: Vec<u8> = Vec::new();
    let mut k: usize = 0;
    while k < outputs.len()
        invariant
            k <= outputs@.len(),
            outs_ser@ == ser_outputs(outs_model(outputs@).take(k as int)),
        decreases outputs@.len() - k,
    {
        push_output(&mut outs_ser, &outputs[k]);
        proof {
            lemma_ser_outputs_take(outs_model(outputs@), k as int);
            assert(outs_ser@ =~= ser_outputs(outs_model(outputs@).take(k + 1)));
        }
        k = k + 1;
    }
    proof {
        assert(outs_model(outputs@).take(outputs@.len() as int) =~= outs_model(outputs@));
    }
    let hash_outputs = sha256d(outs_ser.as_slice());

    let mut pre: Vec<u8> = Vec::new();
    push_le32(&mut pre, 2);
    pre.extend_from_slice(hash_prevouts.as_slice());
    pre.extend_from_slice(hash_sequence.as_slice());
    pre.extend_from_slice(utxos[idx].txid.as_slice());
    push_le32(&mut pre, utxos[idx].vout);
    push_varint(&mut pre, 25);
    let script_code = build_p2wpkh_script_code(utxos[idx].script_pubkey.as_slice());
    pre.extend_from_slice(script_code.as_slice());
    push_le64(&mut pre, utxos[idx].value);
    push_le32(&mut pre, utxos[idx].sequence);
    pre.extend_from_slice(hash_outputs.as_slice());
    push_le32(&mut pre, 0);
    push_le32(&mut pre, 1);
    proof {
        assert(pre@ =~= bip143_preimage(utxos@, outs_model(outputs@), idx as int));
    }
    sha256d(pre.as_slice())
}

/// Compute the digest input `idx` signs, selecting the algorithm by the
/// input's script type.
pub fn compute_input_digest(utxos: &Vec<ProcessedUtxo>, outputs: &Vec<TxOutRec>, idx: usize) -> (r:
    Vec<u8>)
    requires
        idx < utxos@.len(),
        utxos@[idx as int].wf(),
    ensures
        r@ == spec_input_digest(utxos@, outs_model(outputs@), idx as int),
        r@.len() == 32,
{
    match utxos[idx].script_type {
        ScriptType::P2PKH => compute_legacy_sighash(utxos, outputs, idx),
        ScriptType::P2WPKH => compute_segwit_sighash(utxos, outputs, idx),
    }
}

} // verus!
