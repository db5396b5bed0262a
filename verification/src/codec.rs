//! Byte layouts hashed or submitted by the miner.
//!
//! A difficulty is laid out as 32 bytes, little endian. The hash-combination
//! input is the two hashes back to back; the work-derivation input is the
//! difficulty, the pre-hash and the proof-of-scan hash back to back; a seal
//! is its work hash followed by its difficulty.

use crate::hashes::{Difficulty, Hash256};
use vstd::prelude::*;

verus! {

use vstd::bytes::{spec_u64_to_le_bytes, u64_to_le_bytes};

/// The 32-byte little-endian layout of a difficulty: limbs least
/// significant first, each limb little endian.
pub open spec fn spec_difficulty_bytes(d: Difficulty) -> Seq<u8> {
    spec_u64_to_le_bytes(d.limb0) + spec_u64_to_le_bytes(d.limb1) + spec_u64_to_le_bytes(d.limb2)
        + spec_u64_to_le_bytes(d.limb3)
}

/// The input of the hash combiner: the pre-hash and the object hash back
/// to back.
pub open spec fn spec_pair_bytes(pre: Seq<u8>, obj: Seq<u8>) -> Seq<u8> {
    pre + obj
}

/// The input of the work derivation: difficulty, pre-hash and
/// proof-of-scan hash back to back.
pub open spec fn spec_compute_bytes(d: Difficulty, pre: Seq<u8>, poscan: Seq<u8>) -> Seq<u8> {
    spec_difficulty_bytes(d) + pre + poscan
}

/// The layout of an encoded seal: the work hash followed by the
/// difficulty.
pub open spec fn spec_seal_bytes(work: Seq<u8>, d: Difficulty) -> Seq<u8> {
    work + spec_difficulty_bytes(d)
}

/// A difficulty is recovered from its layout: equal layouts mean equal
/// difficulties.
pub proof fn lemma_difficulty_bytes_injective(d1: Difficulty, d2: Difficulty)
    requires
        spec_difficulty_bytes(d1) == spec_difficulty_bytes(d2),
    ensures
        d1 == d2,
{
    vstd::bytes::lemma_auto_spec_u64_to_from_le_bytes();
    let s1 = spec_difficulty_bytes(d1);
    let s2 = spec_difficulty_bytes(d2);
    assert(spec_u64_to_le_bytes(d1.limb0) =~= s1.subrange(0, 8));
    assert(spec_u64_to_le_bytes(d1.limb1) =~= s1.subrange(8, 16));
    assert(spec_u64_to_le_bytes(d1.limb2) =~= s1.subrange(16, 24));
    assert(spec_u64_to_le_bytes(d1.limb3) =~= s1.subrange(24, 32));
    assert(spec_u64_to_le_bytes(d2.limb0) =~= s2.subrange(0, 8));
    assert(spec_u64_to_le_bytes(d2.limb1) =~= s2.subrange(8, 16));
    assert(spec_u64_to_le_bytes(d2.limb2) =~= s2.subrange(16, 24));
    assert(spec_u64_to_le_bytes(d2.limb3) =~= s2.subrange(24, 32));
}

/// The work-derivation input binds its parts: when two inputs with
/// 256-bit pre-hashes lay out to the same bytes, they agree on the
/// difficulty, the pre-hash and the proof-of-scan hash. The work value is
/// derived from this layout alone, so a seal's work is tied to the exact
/// template it was derived under.
pub proof fn lemma_compute_bytes_binding(
    d1: Difficulty,
    pre1: Seq<u8>,
    poscan1: Seq<u8>,
    d2: Difficulty,
    pre2: Seq<u8>,
    poscan2: Seq<u8>,
)
    requires
        pre1.len() == 32,
        pre2.len() == 32,
        spec_compute_bytes(d1, pre1, poscan1) == spec_compute_bytes(d2, pre2, poscan2),
    ensures
        d1 == d2,
        pre1 == pre2,
        poscan1 == poscan2,
{
    vstd::bytes::lemma_auto_spec_u64_to_from_le_bytes();
    let s1 = spec_compute_bytes(d1, pre1, poscan1);
    let s2 = spec_compute_bytes(d2, pre2, poscan2);
    assert(spec_difficulty_bytes(d1) =~= s1.subrange(0, 32));
    assert(spec_difficulty_bytes(d2) =~= s2.subrange(0, 32));
    lemma_difficulty_bytes_injective(d1, d2);
    assert(pre1 =~= s1.subrange(32, 64));
    assert(pre2 =~= s2.subrange(32, 64));
    assert(poscan1 =~= s1.subrange(64, s1.len() as int));
    assert(poscan2 =~= s2.subrange(64, s2.len() as int));
}

pub fn difficulty_bytes(d: &Difficulty) -> (r: Vec<u8>)
    ensures
        r@ == spec_difficulty_bytes(*d),
        r@.len() == 32,
{
    let mut out = u64_to_le_bytes(d.limb0);
    let mut rest = u64_to_le_bytes(d.limb1);
    out.append(&mut rest);
    let mut rest = u64_to_le_bytes(d.limb2);
    out.append(&mut rest);
    let mut rest = u64_to_le_bytes(d.limb3);
    out.append(&mut rest);
    out
}

pub fn pair_bytes(pre: &Hash256, obj: &Hash256) -> (r: Vec<u8>)
    ensures
        r@ == spec_pair_bytes(pre@, obj@),
{
    let mut out = crate::hashes::copy_bytes(&pre.bytes);
    let mut rest = crate::hashes::copy_bytes(&obj.bytes);
    out.append(&mut rest);
    out
}

pub fn compute_bytes(d: &Difficulty, pre: &Hash256, poscan: &Hash256) -> (r: Vec<u8>)
    ensures
        r@ == spec_compute_bytes(*d, pre@, poscan@),
{
    let mut out = difficulty_bytes(d);
    let mut rest = crate::hashes::copy_bytes(&pre.bytes);
    out.append(&mut rest);
    let mut rest = crate::hashes::copy_bytes(&poscan.bytes);
    out.append(&mut rest);
    out
}

} // verus!
