//! The transaction value and its consensus serialization: little-endian
//! integer fields, compact-size counts, input/output encodings, the legacy
//! and segwit forms of a whole transaction, and the weight/virtual-size rule
//! used for fee estimation.

use vstd::prelude::*;

verus! {

/// One transaction output: value in satoshis and locking script.
#[derive(Debug)]
pub struct TxOutRec {
    pub value: u64,
    pub script_pubkey: Vec<u8>,
}

/// One transaction input: outpoint, unlocking script, sequence number and
/// witness items.
#[derive(Debug)]
pub struct TxInRec {
    /// Previous transaction id, consensus byte order, 32 bytes.
    pub txid: Vec<u8>,
    /// Index of the spent output in the previous transaction.
    pub vout: u32,
    pub script_sig: Vec<u8>,
    pub sequence: u32,
    pub witness: Vec<Vec<u8>>,
}

/// A transaction: fixed version and lock time, ordered inputs and outputs.
#[derive(Debug)]
pub struct Tx {
    pub version: u32,
    pub lock_time: u32,
    pub inputs: Vec<TxInRec>,
    pub outputs: Vec<TxOutRec>,
}

/// Mathematical image of one output.
pub ghost struct TxOutModel {
    pub value: u64,
    pub script_pubkey: Seq<u8>,
}

/// Mathematical image of one input.
pub ghost struct TxInModel {
    pub txid: Seq<u8>,
    pub vout: u32,
    pub script_sig: Seq<u8>,
    pub sequence: u32,
    pub witness: Seq<Seq<u8>>,
}

/// Mathematical image of a transaction.
pub ghost struct TxModel {
    pub version: u32,
    pub lock_time: u32,
    pub inputs: Seq<TxInModel>,
    pub outputs: Seq<TxOutModel>,
}

/// Models of a sequence of outputs.
pub open spec fn outs_model(s: Seq<TxOutRec>) -> Seq<TxOutModel> {
    Seq::new(s.len(), |i: int| s[i]@)
}

/// Models of a sequence of inputs.
pub open spec fn ins_model(s: Seq<TxInRec>) -> Seq<TxInModel> {
    Seq::new(s.len(), |i: int| s[i]@)
}

impl View for TxOutRec {
    type V = TxOutModel;

    open spec fn view(&self) -> TxOutModel {
        TxOutModel { value: self.value, script_pubkey: self.script_pubkey@ }
    }
}

impl View for TxInRec {
    type V = TxInModel;

    open spec fn view(&self) -> TxInModel {
        TxInModel {
            txid: self.txid@,
            vout: self.vout,
            script_sig: self.script_sig@,
            sequence: self.sequence,
            witness: self.witness.deep_view(),
        }
    }
}

impl View for Tx {
    type V = TxModel;

    open spec fn view(&self) -> TxModel {
        TxModel {
            version: self.version,
            lock_time: self.lock_time,
            inputs: Seq::new(self.inputs@.len(), |i: int| self.inputs@[i]@),
            outputs: Seq::new(self.outputs@.len(), |i: int| self.outputs@[i]@),
        }
    }
}

/// Little-endian bytes of a 16-bit integer.
pub open spec fn le16(v: u16) -> Seq<u8> {
    seq![(v & 0xff) as u8, ((v >> 8) & 0xff) as u8]
}

/// Little-endian bytes of a 32-bit integer.
pub open spec fn le32(v: u32) -> Seq<u8> {
    seq![
        (v & 0xff) as u8,
        ((v >> 8) & 0xff) as u8,
        ((v >> 16) & 0xff) as u8,
        ((v >> 24) & 0xff) as u8,
    ]
}

/// Little-endian bytes of a 64-bit integer.
pub open spec fn le64(v: u64) -> Seq<u8> {
    seq![
        (v & 0xff) as u8,
        ((v >> 8) & 0xff) as u8,
        ((v >> 16) & 0xff) as u8,
        ((v >> 24) & 0xff) as u8,
        ((v >> 32) & 0xff) as u8,
        ((v >> 40) & 0xff) as u8,
        ((v >> 48) & 0xff) as u8,
        ((v >> 56) & 0xff) as u8,
    ]
}

/// Compact-size encoding of a count.
pub open spec fn varint(n: nat) -> Seq<u8> {
    if n < 0xfd {
        seq![n as u8]
    } else if n <= 0xffff {
        seq![0xfdu8] + le16(n as u16)
    } else if n <= 0xffffffff {
        seq![0xfeu8] + le32(n as u32)
    } else {
        seq![0xffu8] + le64(n as u64)
    }
}

/// Serialized outpoint of an input: txid then output index.
pub open spec fn ser_outpoint(i: TxInModel) -> Seq<u8> {
    i.txid + le32(i.vout)
}

/// Non-witness serialization of one input.
pub open spec fn ser_input_base(i: TxInModel) -> Seq<u8> {
    i.txid + le32(i.vout) + varint(i.script_sig.len()) + i.script_sig + le32(i.sequence)
}

pub open spec fn ser_inputs_base(s: Seq<TxInModel>) -> Seq<u8>
    decreases s.len(),
{
    if s.len() == 0 {
        Seq::empty()
    } else {
        ser_inputs_base(s.drop_last()) + ser_input_base(s.last())
    }
}

/// Serialization of one output.
pub open spec fn ser_output(o: TxOutModel) -> Seq<u8> {
    le64(o.value) + varint(o.script_pubkey.len()) + o.script_pubkey
}

pub open spec fn ser_outputs(s: Seq<TxOutModel>) -> Seq<u8>
    decreases s.len(),
{
    if s.len() == 0 {
        Seq::empty()
    } else {
        ser_outputs(s.drop_last()) + ser_output(s.last())
    }
}

/// Concatenated outpoints of all inputs (the BIP143 prevouts stream).
pub open spec fn ser_outpoints(s: Seq<TxInModel>) -> Seq<u8>
    decreases s.len(),
{
    if s.len() == 0 {
        Seq::empty()
    } else {
        ser_outpoints(s.drop_last()) + ser_outpoint(s.last())
    }
}

/// Concatenated sequence numbers of all inputs (the BIP143 sequence stream).
pub open spec fn ser_sequences(s: Seq<TxInModel>) -> Seq<u8>
    decreases s.len(),
{
    if s.len() == 0 {
        Seq::empty()
    } else {
        ser_sequences(s.drop_last()) + le32(s.last().sequence)
    }
}

/// One witness item: its length as a compact size, then its bytes.
pub open spec fn ser_witness_item(w: Seq<u8>) -> Seq<u8> {
    varint(w.len()) + w
}

pub open spec fn ser_witness_items(s: Seq<Seq<u8>>) -> Seq<u8>
    decreases s.len(),
{
    if s.len() == 0 {
        Seq::empty()
    } else {
        ser_witness_items(s.drop_last()) + ser_witness_item(s.last())
    }
}

/// The witness field of one input: item count, then the items.
pub open spec fn ser_witness_field(i: TxInModel) -> Seq<u8> {
    varint(i.witness.len()) + ser_witness_items(i.witness)
}

pub open spec fn ser_witness_fields(s: Seq<TxInModel>) -> Seq<u8>
    decreases s.len(),
{
    if s.len() == 0 {
        Seq::empty()
    } else {
        ser_witness_fields(s.drop_last()) + ser_witness_field(s.last())
    }
}

/// A transaction is serialized in segwit form exactly when some input
/// carries witness data.
pub open spec fn spec_has_witness(t: TxModel) -> bool {
    exists|i: int| 0 <= i < t.inputs.len() && #[trigger] t.inputs[i].witness.len() > 0
}

/// Legacy (non-witness) serialization of a transaction.
pub open spec fn ser_tx_base(t: TxModel) -> Seq<u8> {
    le32(t.version) + varint(t.inputs.len()) + ser_inputs_base(t.inputs) + varint(t.outputs.len())
        + ser_outputs(t.outputs) + le32(t.lock_time)
}

/// Segwit serialization: marker and flag after the version, witness fields
/// before the lock time.
pub open spec fn ser_tx_segwit(t: TxModel) -> Seq<u8> {
    le32(t.version) + seq![0x00u8, 0x01u8] + varint(t.inputs.len()) + ser_inputs_base(t.inputs)
        + varint(t.outputs.len()) + ser_outputs(t.outputs) + ser_witness_fields(t.inputs) + le32(
        t.lock_time,
    )
}

/// Consensus serialization of a transaction.
pub open spec fn ser_tx(t: TxModel) -> Seq<u8> {
    if spec_has_witness(t) {
        ser_tx_segwit(t)
    } else {
        ser_tx_base(t)
    }
}

/// Weight: non-witness bytes count four, witness bytes count one.
pub open spec fn spec_weight(t: TxModel) -> nat {
    ser_tx_base(t).len() * 3 + ser_tx(t).len()
}

/// Virtual size: weight divided by four, rounded up.
pub open spec fn spec_vsize(t: TxModel) -> nat {
    ((spec_weight(t) + 3) / 4) as nat
}

pub proof fn lemma_ser_inputs_base_take(s: Seq<TxInModel>, i: int)
    requires
        0 <= i < s.len(),
    ensures
        ser_inputs_base(s.take(i + 1)) == ser_inputs_base(s.take(i)) + ser_input_base(s[i]),
{
    assert(s.take(i + 1).drop_last() =~= s.take(i));
    assert(s.take(i + 1).last() == s[i]);
}

pub proof fn lemma_ser_outputs_take(s: Seq<TxOutModel>, i: int)
    requires
        0 <= i < s.len(),
    ensures
        ser_outputs(s.take(i + 1)) == ser_outputs(s.take(i)) + ser_output(s[i]),
{
    assert(s.take(i + 1).drop_last() =~= s.take(i));
    assert(s.take(i + 1).last() == s[i]);
}

pub proof fn lemma_ser_outpoints_take(s: Seq<TxInModel>, i: int)
    requires
        0 <= i < s.len(),
    ensures
        ser_outpoints(s.take(i + 1)) == ser_outpoints(s.take(i)) + ser_outpoint(s[i]),
{
    assert(s.take(i + 1).drop_last() =~= s.take(i));
    assert(s.take(i + 1).last() == s[i]);
}

pub proof fn lemma_ser_sequences_take(s: Seq<TxInModel>, i: int)
    requires
        0 <= i < s.len(),
    ensures
        ser_sequences(s.take(i + 1)) == ser_sequences(s.take(i)) + le32(s[i].sequence),
{
    assert(s.take(i + 1).drop_last() =~= s.take(i));
    assert(s.take(i + 1).last() == s[i]);
}

pub proof fn lemma_ser_witness_items_take(s: Seq<Seq<u8>>, i: int)
    requires
        0 <= i < s.len(),
    ensures
        ser_witness_items(s.take(i + 1)) == ser_witness_items(s.take(i)) + ser_witness_item(s[i]),
{
    assert(s.take(i + 1).drop_last() =~= s.take(i));
    assert(s.take(i + 1).last() == s[i]);
}

pub proof fn lemma_ser_witness_fields_take(s: Seq<TxInModel>, i: int)
    requires
        0 <= i < s.len(),
    ensures
        ser_witness_fields(s.take(i + 1)) == ser_witness_fields(s.take(i)) + ser_witness_field(
            s[i],
        ),
{
    assert(s.take(i + 1).drop_last() =~= s.take(i));
    assert(s.take(i + 1).last() == s[i]);
}

pub fn push_le16(out: &mut Vec<u8>, v: u16)
    ensures
        final(out)@ == old(out)@ + le16(v),
{
    out.push((v & 0xff) as u8);
    out.push(((v >> 8) & 0xff) as u8);
    proof {
        assert(out@ =~= old(out)@ + le16(v));
    }
}

pub fn push_le32(out: &mut Vec<u8>, v: u32)
    ensures
        final(out)@ == old(out)@ + le32(v),
{
    out.push((v & 0xff) as u8);
    out.push(((v >> 8) & 0xff) as u8);
    out.push(((v >> 16) & 0xff) as u8);
    out.push(((v >> 24) & 0xff) as u8);
    proof {
        assert(out@ =~= old(out)@ + le32(v));
    }
}

pub fn push_le64(out: &mut Vec<u8>, v: u64)
    ensures
        final(out)@ == old(out)@ + le64(v),
{
    out.push((v & 0xff) as u8);
    out.push(((v >> 8) & 0xff) as u8);
    out.push(((v >> 16) & 0xff) as u8);
    out.push(((v >> 24) & 0xff) as u8);
    out.push(((v >> 32) & 0xff) as u8);
    out.push(((v >> 40) & 0xff) as u8);
    out.push(((v >> 48) & 0xff) as u8);
    out.push(((v >> 56) & 0xff) as u8);
    proof {
        assert(out@ =~= old(out)@ + le64(v));
    }
}

pub fn push_varint(out: &mut Vec<u8>, n: u64)
    ensures
        final(out)@ == old(out)@ + varint(n as nat),
{
    if n < 0xfd {
        out.push(n as u8);
        proof {
            assert(out@ =~= old(out)@ + varint(n as nat));
        }
    } else if n <= 0xffff {
        out.push(0xfd);
        push_le16(out, n as u16);
        proof {
            assert(out@ =~= old(out)@ + varint(n as nat));
        }
    } else if n <= 0xffffffff {
        out.push(0xfe);
        push_le32(out, n as u32);
        proof {
            assert(out@ =~= old(out)@ + varint(n as nat));
        }
    } else {
        out.push(0xff);
        push_le64(out, n);
        proof {
            assert(out@ =~= old(out)@ + varint(n as nat));
        }
    }
}

fn push_input_base(out: &mut Vec<u8>, input: &TxInRec)
    ensures
        final(out)@ == old(out)@ + ser_input_base(input@),
{
    out.extend_from_slice(input.txid.as_slice());
    push_le32(out, input.vout);
    push_varint(out, input.script_sig.len() as u64);
    out.extend_from_slice(input.script_sig.as_slice());
    push_le32(out, input.sequence);
    proof {
        assert(out@ =~= old(out)@ + ser_input_base(input@));
    }
}

pub(crate) fn push_output(out: &mut Vec<u8>, output: &TxOutRec)
    ensures
        final(out)@ == old(out)@ + ser_output(output@),
{
    push_le64(out, output.value);
    push_varint(out, output.script_pubkey.len() as u64);
    out.extend_from_slice(output.script_pubkey.as_slice());
    proof {
        assert(out@ =~= old(out)@ + ser_output(output@));
    }
}

fn push_witness_field(out: &mut Vec<u8>, input: &TxInRec)
    ensures
        final(out)@ == old(out)@ + ser_witness_field(input@),
{
    push_varint(out, input.witness.len() as u64);
    let ghost items: Seq<Seq<u8>> = input@.witness;
    proof {
        assert(items.len() == input.witness@.len());
    }
    let mut j: usize = 0;
    while j < input.witness.len()
        invariant
            j <= input.witness@.len(),
            items == input@.witness,
            items.len() == input.witness@.len(),
            forall|k: int| 0 <= k < items.len() ==> #[trigger] items[k] == input.witness@[k]@,
            out@ == old(out)@ + varint(items.len()) + ser_witness_items(items.take(j as int)),
        decreases input.witness@.len() - j,
    {
        let item = &input.witness[j];
        push_varint(out, item.len() as u64);
        out.extend_from_slice(item.as_slice());
        proof {
            lemma_ser_witness_items_take(items, j as int);
            assert(out@ =~= old(out)@ + varint(items.len()) + ser_witness_items(
                items.take(j + 1),
            ));
        }
        j = j + 1;
    }
    proof {
        assert(items.take(items.len() as int) =~= items);
        assert(out@ =~= old(out)@ + ser_witness_field(input@));
    }
}

/// Does some input of this transaction carry witness data?
pub fn has_witness(tx: &Tx) -> (r: bool)
    ensures
        r == spec_has_witness(tx@),
{
    let mut i: usize = 0;
    while i < tx.inputs.len()
        invariant
            i <= tx.inputs@.len(),
            forall|k: int| 0 <= k < i ==> #[trigger] tx@.inputs[k].witness.len() == 0,
        decreases tx.inputs@.len() - i,
    {
        if tx.inputs[i].witness.len() > 0 {
            proof {
                assert(tx@.inputs[i as int].witness.len() > 0);
            }
            return true;
        }
        i = i + 1;
    }
    false
}

/// Legacy serialization of a transaction, witness data omitted.
pub fn serialize_tx_base(tx: &Tx) -> (r: Vec<u8>)
    ensures
        r@ == ser_tx_base(tx@),
{
    let mut out: Vec<u8> = Vec::new();
    push_le32(&mut out, tx.version);
    push_varint(&mut out, tx.inputs.len() as u64);
    let ghost pre_inputs = out@;
    let mut i: usize = 0;
    while i < tx.inputs.len()
        invariant
            i <= tx.inputs@.len(),
            pre_inputs == le32(tx@.version) + varint(tx@.inputs.len()),
            tx@.inputs.len() == tx.inputs@.len(),
            forall|k: int| 0 <= k < tx.inputs@.len() ==> #[trigger] tx@.inputs[k] == tx.inputs@[k]@,
            out@ == pre_inputs + ser_inputs_base(tx@.inputs.take(i as int)),
        decreases tx.inputs@.len() - i,
    {
        push_input_base(&mut out, &tx.inputs[i]);
        proof {
            lemma_ser_inputs_base_take(tx@.inputs, i as int);
            assert(out@ =~= pre_inputs + ser_inputs_base(tx@.inputs.take(i + 1)));
        }
        i = i + 1;
    }
    proof {
        assert(tx@.inputs.take(tx@.inputs.len() as int) =~= tx@.inputs);
    }
    push_varint(&mut out, tx.outputs.len() as u64);
    let ghost pre_outputs = out@;
    let mut j: usize = 0;
    while j < tx.outputs.len()
        invariant
            j <= tx.outputs@.len(),
            pre_outputs == le32(tx@.version) + varint(tx@.inputs.len()) + ser_inputs_base(
                tx@.inputs,
            ) + varint(tx@.outputs.len()),
            tx@.outputs.len() == tx.outputs@.len(),
            forall|k: int|
                0 <= k < tx.outputs@.len() ==> #[trigger] tx@.outputs[k] == tx.outputs@[k]@,
            out@ == pre_outputs + ser_outputs(tx@.outputs.take(j as int)),
        decreases tx.outputs@.len() - j,
    {
        push_output(&mut out, &tx.outputs[j]);
        proof {
            lemma_ser_outputs_take(tx@.outputs, j as int);
            assert(out@ =~= pre_outputs + ser_outputs(tx@.outputs.take(j + 1)));
        }
        j = j + 1;
    }
    proof {
        assert(tx@.outputs.take(tx@.outputs.len() as int) =~= tx@.outputs);
    }
    push_le32(&mut out, tx.lock_time);
    proof {
        assert(out@ =~= ser_tx_base(tx@));
    }
    out
}

/// Consensus serialization of a transaction: segwit form when any input
/// carries witness data, legacy form otherwise.
pub fn serialize_tx(tx: &Tx) -> (r: Vec<u8>)
    ensures
        r@ == ser_tx(tx@),
{
    if !has_witness(tx) {
        return serialize_tx_base(tx);
    }
    let mut out: Vec<u8> = Vec::new();
    push_le32(&mut out, tx.version);
    out.push(0x00);
    out.push(0x01);
    push_varint(&mut out, tx.inputs.len() as u64);
    let ghost pre_inputs = out@;
    proof {
        assert(pre_inputs =~= le32(tx@.version) + seq![0x00u8, 0x01u8] + varint(tx@.inputs.len()));
    }
    let mut i: usize = 0;
    while i < tx.inputs.len()
        invariant
            i <= tx.inputs@.len(),
            pre_inputs == le32(tx@.version) + seq![0x00u8, 0x01u8] + varint(tx@.inputs.len()),
            tx@.inputs.len() == tx.inputs@.len(),
            forall|k: int| 0 <= k < tx.inputs@.len() ==> #[trigger] tx@.inputs[k] == tx.inputs@[k]@,
            out@ == pre_inputs + ser_inputs_base(tx@.inputs.take(i as int)),
        decreases tx.inputs@.len() - i,
    {
        push_input_base(&mut out, &tx.inputs[i]);
        proof {
            lemma_ser_inputs_base_take(tx@.inputs, i as int);
            assert(out@ =~= pre_inputs + ser_inputs_base(tx@.inputs.take(i + 1)));
        }
        i = i + 1;
    }
    proof {
        assert(tx@.inputs.take(tx@.inputs.len() as int) =~= tx@.inputs);
    }
    push_varint(&mut out, tx.outputs.len() as u64);
    let ghost pre_outputs = out@;
    let mut j: usize = 0;
    while j < tx.outputs.len()
        invariant
            j <= tx.outputs@.len(),
            pre_outputs == le32(tx@.version) + seq![0x00u8, 0x01u8] + varint(tx@.inputs.len())
                + ser_inputs_base(tx@.inputs) + varint(tx@.outputs.len()),
            tx@.outputs.len() == tx.outputs@.len(),
            forall|k: int|
                0 <= k < tx.outputs@.len() ==> #[trigger] tx@.outputs[k] == tx.outputs@[k]@,
            out@ == pre_outputs + ser_outputs(tx@.outputs.take(j as int)),
        decreases tx.outputs@.len() - j,
    {
        push_output(&mut out, &tx.outputs[j]);
        proof {
            lemma_ser_outputs_take(tx@.outputs, j as int);
            assert(out@ =~= pre_outputs + ser_outputs(tx@.outputs.take(j + 1)));
        }
        j = j + 1;
    }
    proof {
        assert(tx@.outputs.take(tx@.outputs.len() as int) =~= tx@.outputs);
    }
    let ghost pre_witness = out@;
    let mut k: usize = 0;
    while k < tx.inputs.len()
        invariant
            k <= tx.inputs@.len(),
            pre_witness == le32(tx@.version) + seq![0x00u8, 0x01u8] + varint(tx@.inputs.len())
                + ser_inputs_base(tx@.inputs) + varint(tx@.outputs.len()) + ser_outputs(
                tx@.outputs,
            ),
            tx@.inputs.len() == tx.inputs@.len(),
            forall|m: int| 0 <= m < tx.inputs@.len() ==> #[trigger] tx@.inputs[m] == tx.inputs@[m]@,
            out@ == pre_witness + ser_witness_fields(tx@.inputs.take(k as int)),
        decreases tx.inputs@.len() - k,
    {
        push_witness_field(&mut out, &tx.inputs[k]);
        proof {
            lemma_ser_witness_fields_take(tx@.inputs, k as int);
            assert(out@ =~= pre_witness + ser_witness_fields(tx@.inputs.take(k + 1)));
        }
        k = k + 1;
    }
    proof {
        assert(tx@.inputs.take(tx@.inputs.len() as int) =~= tx@.inputs);
    }
    push_le32(&mut out, tx.lock_time);
    proof {
        assert(out@ =~= ser_tx_segwit(tx@));
    }
    out
}

/// The segwit form is never shorter than the legacy form.
proof fn lemma_base_le_total(t: TxModel)
    ensures
        ser_tx_base(t).len() <= ser_tx(t).len(),
{
    if spec_has_witness(t) {
        assert(ser_tx_segwit(t).len() == ser_tx_base(t).len() + 2 + ser_witness_fields(
            t.inputs,
        ).len());
    }
}

/// Virtual size of a transaction under the weight rule.
pub fn transaction_vsize(tx: &Tx) -> (r: u64)
    ensures
        r == spec_vsize(tx@),
{
    let base = serialize_tx_base(tx);
    let total = serialize_tx(tx);
    let b: u128 = base.len() as u128;
    let t: u128 = total.len() as u128;
    proof {
        lemma_base_le_total(tx@);
    }
    let w: u128 = 3 * b + t;
    let v: u128 = (w + 3) / 4;
    proof {
        assert(v <= t);
        assert(v == spec_vsize(tx@));
    }
    v as u64
}

} // verus!
