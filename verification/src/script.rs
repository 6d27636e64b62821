//! Locking-script byte patterns and the small scripts this engine builds:
//! pattern recognition for the two supported locking-script templates, the
//! script-code reconstruction for witness inputs, and push-style unlocking
//! scripts.

use vstd::prelude::*;
use vstd::slice::{slice_index_get, slice_subrange};

verus! {

/// Pay-to-public-key-hash locking script:
/// `OP_DUP OP_HASH160 <push 20 bytes> OP_EQUALVERIFY OP_CHECKSIG`.
pub open spec fn spec_is_p2pkh(s: Seq<u8>) -> bool {
    s.len() == 25 && s[0] == 0x76u8 && s[1] == 0xa9u8 && s[2] == 0x14u8 && s[23] == 0x88u8
        && s[24] == 0xacu8
}

/// Pay-to-witness-public-key-hash locking script:
/// `OP_0 <push 20 bytes>` (witness version 0, 20-byte program).
pub open spec fn spec_is_p2wpkh(s: Seq<u8>) -> bool {
    s.len() == 22 && s[0] == 0x00u8 && s[1] == 0x14u8
}

/// No byte string matches both supported locking-script patterns.
pub proof fn lemma_script_patterns_disjoint(s: Seq<u8>)
    ensures
        !(spec_is_p2pkh(s) && spec_is_p2wpkh(s)),
{
}

pub fn is_p2pkh(script: &[u8]) -> (r: bool)
    ensures
        r == spec_is_p2pkh(script@),
{
    script.len() == 25 && *slice_index_get(script, 0) == 0x76 && *slice_index_get(script, 1)
        == 0xa9 && *slice_index_get(script, 2) == 0x14 && *slice_index_get(script, 23) == 0x88
        && *slice_index_get(script, 24) == 0xac
}

pub fn is_p2wpkh(script: &[u8]) -> (r: bool)
    ensures
        r == spec_is_p2wpkh(script@),
{
    script.len() == 22 && *slice_index_get(script, 0) == 0x00 && *slice_index_get(script, 1)
        == 0x14
}

/// The pay-to-public-key-hash script implied by a witness program: the
/// 20-byte hash embedded in the locking script, framed as
/// `OP_DUP OP_HASH160 <hash> OP_EQUALVERIFY OP_CHECKSIG`.
pub open spec fn p2wpkh_script_code(spk: Seq<u8>) -> Seq<u8> {
    seq![0x76u8, 0xa9u8, 0x14u8] + spk.subrange(2, 22) + seq![0x88u8, 0xacu8]
}

pub fn build_p2wpkh_script_code(spk: &[u8]) -> (r: Vec<u8>)
    requires
        spec_is_p2wpkh(spk@),
    ensures
        r@ == p2wpkh_script_code(spk@),
        r@.len() == 25,
{
    let mut out: Vec<u8> = Vec::new();
    out.push(0x76);
    out.push(0xa9);
    out.push(0x14);
    out.extend_from_slice(slice_subrange(spk, 2, 22));
    out.push(0x88);
    out.push(0xac);
    proof {
        assert(out@ =~= p2wpkh_script_code(spk@));
    }
    out
}

/// A script that pushes `a`, then pushes `b`, with single-byte push opcodes.
pub open spec fn push_two(a: Seq<u8>, b: Seq<u8>) -> Seq<u8> {
    seq![a.len() as u8] + a + seq![b.len() as u8] + b
}

pub fn build_push_two(a: &[u8], b: &[u8]) -> (r: Vec<u8>)
    requires
        a@.len() < 76,
        b@.len() < 76,
    ensures
        r@ == push_two(a@, b@),
{
    let mut out: Vec<u8> = Vec::new();
    out.push(a.len() as u8);
    out.extend_from_slice(a);
    out.push(b.len() as u8);
    out.extend_from_slice(b);
    proof {
        assert(out@ =~= push_two(a@, b@));
    }
    out
}

/// A string of `n` zero bytes, the worst-case stand-in for a signature.
pub open spec fn zero_bytes(n: nat) -> Seq<u8> {
    Seq::new(n, |i: int| 0u8)
}

pub fn build_dummy_signature() -> (r: Vec<u8>)
    ensures
        r@ == zero_bytes(72),
{
    let out: Vec<u8> = vec![0u8; 72];
    proof {
        assert(out@ =~= zero_bytes(72));
    }
    out
}

} // verus!
