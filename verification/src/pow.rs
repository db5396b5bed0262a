//! Hash combiner, work evaluator and the difficulty rule.

use crate::codec::{
    compute_bytes, pair_bytes, spec_compute_bytes, spec_pair_bytes,
};
use crate::hashes::{be_nat, Difficulty, Hash256};
use sha3::Digest;
use vstd::prelude::*;

verus! {

use vstd::arithmetic::power2::pow2;

/// The SHA3-256 digest of a byte string.
pub uninterp spec fn sha3_of(input: Seq<u8>) -> Seq<u8>;

/// Relies on sha3::Sha3_256 through digest::Digest::digest: the SHA3-256
/// digest of the input, a pure function of the input alone, 32 bytes long.
#[verifier::external_body]
fn sha3_256(input: &Vec<u8>) -> (r: Vec<u8>)
    ensures
        r@ == sha3_of(input@),
        r@.len() == 32,
{
    sha3::Sha3_256::digest(input.as_slice()).to_vec()
}

/// The proof-of-scan hash combined from a pre-hash and an object hash.
pub open spec fn spec_calc_hash(pre: Seq<u8>, obj: Seq<u8>) -> Seq<u8> {
    sha3_of(spec_pair_bytes(pre, obj))
}

/// The work value derived from a difficulty, a pre-hash and a
/// proof-of-scan hash.
pub open spec fn spec_work(d: Difficulty, pre: Seq<u8>, poscan: Seq<u8>) -> Seq<u8> {
    sha3_of(spec_compute_bytes(d, pre, poscan))
}

/// The acceptance rule: work, read as a big-endian number, times the
/// difficulty must fit in 256 bits.
pub open spec fn spec_meets_difficulty(work: Seq<u8>, d: Difficulty) -> bool {
    be_nat(work) * d.spec_nat() < pow2(256)
}

/// The hash combiner: the digest of the pre-hash and the object hash laid
/// back to back.
pub fn calc_hash(pre: &Hash256, obj: &Hash256) -> (r: Hash256)
    ensures
        r@ == spec_calc_hash(pre@, obj@),
        r.wf(),
{
    let bytes = pair_bytes(pre, obj);
    Hash256::from_bytes(sha3_256(&bytes))
}

/// One evaluation attempt: a difficulty, a pre-hash and a proof-of-scan
/// hash, from which a seal is derived.
pub struct ComputeInput {
    pub difficulty: Difficulty,
    pub pre_hash: Hash256,
    pub poscan_hash: Hash256,
}

/// A proof-of-work solution: the derived work hash, bound to the
/// difficulty it was derived under.
pub struct Seal {
    pub work: Hash256,
    pub difficulty: Difficulty,
}

impl ComputeInput {
    /// The work evaluator: the seal's work is the digest of the encoded
    /// input, so it is bound to the exact difficulty and pre-hash.
    pub fn compute(&self) -> (r: Seal)
        ensures
            r.work@ == spec_work(self.difficulty, self.pre_hash@, self.poscan_hash@),
            r.difficulty == self.difficulty,
            r.work.wf(),
    {
        let bytes = compute_bytes(&self.difficulty, &self.pre_hash, &self.poscan_hash);
        Seal { work: Hash256::from_bytes(sha3_256(&bytes)), difficulty: self.difficulty }
    }
}

impl Seal {
    /// The submitted form of a seal: its work hash followed by its
    /// difficulty.
    pub fn encode(&self) -> (r: Vec<u8>)
        ensures
            r@ == crate::codec::spec_seal_bytes(self.work@, self.difficulty),
    {
        let mut out = crate::hashes::copy_bytes(&self.work.bytes);
        let mut rest = crate::codec::difficulty_bytes(&self.difficulty);
        out.append(&mut rest);
        out
    }
}

/// Relies on primitive_types::U256::overflowing_mul, with
/// U256::from_big_endian converting the work hash: the overflow flag is
/// set exactly when the full product of the two values is 2^256 or more.
#[verifier::external_body]
fn work_times_difficulty_overflows(work: &Hash256, d: &Difficulty) -> (r: bool)
    requires
        work.wf(),
    ensures
        r == (be_nat(work@) * d.spec_nat() >= pow2(256)),
{
    let w = primitive_types::U256::from_big_endian(work.bytes.as_slice());
    let diff = primitive_types::U256([d.limb0, d.limb1, d.limb2, d.limb3]);
    let (_, overflow) = w.overflowing_mul(diff);
    overflow
}

/// The network's proof-of-work acceptance rule.
pub fn meets_difficulty(work: &Hash256, d: &Difficulty) -> (r: bool)
    requires
        work.wf(),
    ensures
        r == spec_meets_difficulty(work@, *d),
{
    !work_times_difficulty_overflows(work, d)
}

/// A difficulty at or below one under which work was accepted also
/// accepts that work: lowering the difficulty never invalidates a seal.
pub proof fn lemma_meets_difficulty_easier(work: Seq<u8>, d1: Difficulty, d2: Difficulty)
    requires
        spec_meets_difficulty(work, d1),
        d2.spec_nat() <= d1.spec_nat(),
    ensures
        spec_meets_difficulty(work, d2),
{
    vstd::arithmetic::mul::lemma_mul_inequality(
        d2.spec_nat() as int,
        d1.spec_nat() as int,
        be_nat(work) as int,
    );
    vstd::arithmetic::mul::lemma_mul_is_commutative(d2.spec_nat() as int, be_nat(work) as int);
    vstd::arithmetic::mul::lemma_mul_is_commutative(d1.spec_nat() as int, be_nat(work) as int);
}

/// Acceptance is not upward closed: there is work accepted under one
/// difficulty that fails under a higher one, so acceptance at a given
/// difficulty says nothing about harder ones.
pub proof fn lemma_meets_difficulty_not_upward_closed() -> (r: (Seq<u8>, Difficulty, Difficulty))
    ensures
        spec_meets_difficulty(r.0, r.1),
        r.1.spec_nat() < r.2.spec_nat(),
        !spec_meets_difficulty(r.0, r.2),
{
    let work = Seq::new(32, |i: int| 0xffu8);
    let d1 = Difficulty { limb0: 1, limb1: 0, limb2: 0, limb3: 0 };
    let d2 = Difficulty { limb0: 2, limb1: 0, limb2: 0, limb3: 0 };
    crate::hashes::lemma_be_nat_all_ones(32);
    vstd::arithmetic::power2::lemma_pow2_pos(256);
    vstd::arithmetic::power2::lemma_pow2_strictly_increases(1, 256);
    vstd::arithmetic::power2::lemma2_to64();
    assert(d1.spec_nat() == 1);
    assert(d2.spec_nat() == 2);
    assert(be_nat(work) * d1.spec_nat() == be_nat(work)) by {
        vstd::arithmetic::mul::lemma_mul_basics(be_nat(work) as int);
    }
    assert(be_nat(work) * d2.spec_nat() == 2 * pow2(256) - 2);
    (work, d1, d2)
}

/// Determinism: a combined hash and a derived work value are functions of
/// their inputs alone, so two results computed from equal inputs are equal.
pub proof fn lemma_hashing_deterministic(
    d: Difficulty,
    pre: Seq<u8>,
    obj: Seq<u8>,
    c1: Seq<u8>,
    c2: Seq<u8>,
    w1: Seq<u8>,
    w2: Seq<u8>,
)
    requires
        c1 == spec_calc_hash(pre, obj),
        c2 == spec_calc_hash(pre, obj),
        w1 == spec_work(d, pre, c1),
        w2 == spec_work(d, pre, c2),
    ensures
        c1 == c2,
        w1 == w2,
{
}

} // verus!
