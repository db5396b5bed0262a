//! 256-bit values: hashes and difficulties.

use vstd::prelude::*;

verus! {

/// A 256-bit hash, held as exactly 32 bytes.
pub struct Hash256 {
    pub bytes: Vec<u8>,
}

impl View for Hash256 {
    type V = Seq<u8>;

    open spec fn view(&self) -> Seq<u8> {
        self.bytes@
    }
}

impl Hash256 {
    /// Well-formed: exactly 32 bytes.
    pub open spec fn wf(&self) -> bool {
        self.bytes@.len() == 32
    }

    pub fn from_bytes(bytes: Vec<u8>) -> (r: Hash256)
        requires
            bytes@.len() == 32,
        ensures
            r@ == bytes@,
            r.wf(),
    {
        Hash256 { bytes }
    }

    pub fn duplicate(&self) -> (r: Hash256)
        ensures
            r@ == self@,
    {
        Hash256 { bytes: copy_bytes(&self.bytes) }
    }
}

/// The numeric value of a big-endian byte string.
pub open spec fn be_nat(s: Seq<u8>) -> nat
    decreases s.len(),
{
    if s.len() == 0 {
        0
    } else {
        be_nat(s.drop_last()) * 256 + (s.last() as nat)
    }
}

/// A string of `n` bytes, all ones, reads as `2^(8n) - 1`.
pub proof fn lemma_be_nat_all_ones(n: nat)
    ensures
        be_nat(Seq::new(n, |i: int| 0xffu8)) == vstd::arithmetic::power2::pow2(8 * n) - 1,
    decreases n,
{
    vstd::arithmetic::power2::lemma2_to64();
    if n == 0 {
    } else {
        let s = Seq::new(n, |i: int| 0xffu8);
        let t = Seq::new((n - 1) as nat, |i: int| 0xffu8);
        assert(s.drop_last() =~= t);
        lemma_be_nat_all_ones((n - 1) as nat);
        vstd::arithmetic::power2::lemma_pow2_adds(8 * (n - 1) as nat, 8);
    }
}

/// Byte-for-byte copy of a vector.
pub fn copy_bytes(v: &Vec<u8>) -> (r: Vec<u8>)
    ensures
        r@ == v@,
{
    let mut out: Vec<u8> = Vec::new();
    let mut i: usize = 0;
    while i < v.len()
        invariant
            i <= v@.len(),
            out@ == v@.subrange(0, i as int),
        decreases v@.len() - i,
    {
        out.push(v[i]);
        i = i + 1;
    }
    assert(out@ =~= v@);
    out
}

/// Whether two byte vectors hold the same bytes.
pub fn bytes_equal(a: &Vec<u8>, b: &Vec<u8>) -> (r: bool)
    ensures
        r == (a@ == b@),
{
    if a.len() != b.len() {
        assert(a@ !~= b@);
        return false;
    }
    let mut i: usize = 0;
    while i < a.len()
        invariant
            i <= a@.len(),
            a@.len() == b@.len(),
            forall|j: int| 0 <= j < i ==> a@[j] == b@[j],
        decreases a@.len() - i,
    {
        if a[i] != b[i] {
            return false;
        }
        i = i + 1;
    }
    assert(a@ =~= b@);
    true
}

/// A 256-bit difficulty, as four 64-bit limbs, least significant first.
#[derive(Clone, Copy, Debug, PartialEq, Eq, Structural)]
pub struct Difficulty {
    pub limb0: u64,
    pub limb1: u64,
    pub limb2: u64,
    pub limb3: u64,
}

impl Difficulty {
    /// The numeric value of the difficulty.
    pub open spec fn spec_nat(&self) -> nat {
        (self.limb0 as nat) + (self.limb1 as nat) * vstd::arithmetic::power2::pow2(64)
            + (self.limb2 as nat) * vstd::arithmetic::power2::pow2(128) + (self.limb3 as nat)
            * vstd::arithmetic::power2::pow2(192)
    }

    pub fn new(limb0: u64, limb1: u64, limb2: u64, limb3: u64) -> (r: Difficulty)
        ensures
            r == (Difficulty { limb0, limb1, limb2, limb3 }),
    {
        Difficulty { limb0, limb1, limb2, limb3 }
    }
}

} // verus!
