//! The mining coordinator: the decisions of the mining loop.
//!
//! Each iteration, the coordinator either waits for a block template,
//! draws a proposal from the candidate queue and stages its payload, or
//! evaluates the staged candidate against the template current at that
//! moment. The outside work around those decisions — polling the template,
//! hashing a proposal's object, sleeping, and handing a winning seal to
//! the block-authoring subsystem — is the caller's.

use crate::hashes::{Difficulty, Hash256};
use crate::pow::{
    calc_hash, meets_difficulty, spec_calc_hash, spec_meets_difficulty, spec_work, ComputeInput,
    Seal,
};
use crate::queue::MiningProposal;
use vstd::prelude::*;

verus! {

/// The template of the block currently being mined, as the
/// block-authoring subsystem supplies it.
pub struct BlockTemplateMetadata {
    pub difficulty: Difficulty,
    pub pre_hash: Hash256,
}

impl BlockTemplateMetadata {
    pub open spec fn wf(&self) -> bool {
        self.pre_hash.wf()
    }
}

/// The payload submitted beside a winning seal: the object's hashes and
/// the object itself, so the chain can verify the proof independently.
pub struct PoscanData {
    pub hashes: Vec<Hash256>,
    pub obj: Vec<u8>,
}

impl PoscanData {
    pub open spec fn wf(&self) -> bool {
        forall|i: int| 0 <= i < self.hashes@.len() ==> (#[trigger] self.hashes@[i]).wf()
    }
}

/// The coordinator's standing at the top of an iteration.
#[derive(Clone, Copy, PartialEq, Eq, Structural)]
pub enum Phase {
    /// No block template is available: wait briefly, then poll again.
    AwaitingMetadata,
    /// A template but no staged candidate: draw from the queue.
    AwaitingProposal,
    /// A template and a staged candidate: evaluate it.
    Staged,
}

/// The mining coordinator. It holds at most one staged candidate between
/// iterations; staging overwrites, never accumulates.
pub struct Coordinator {
    pub staged: Option<PoscanData>,
}

impl Coordinator {
    /// Well-formed: a staged payload has at least one hash — its first is
    /// the object hash that evaluation combines with the pre-hash — and
    /// its hashes are 256-bit values.
    pub open spec fn wf(&self) -> bool {
        self.staged matches Some(d) ==> d.hashes@.len() > 0 && d.wf()
    }

    pub fn new() -> (r: Coordinator)
        ensures
            r.staged is None,
            r.wf(),
    {
        Coordinator { staged: None }
    }

    pub fn has_staged(&self) -> (r: bool)
        ensures
            r == (self.staged is Some),
    {
        self.staged.is_some()
    }

    /// Which phase the next iteration runs.
    pub fn next_phase(&self, metadata_available: bool) -> (r: Phase)
        ensures
            !metadata_available ==> r is AwaitingMetadata,
            metadata_available && self.staged is None ==> r is AwaitingProposal,
            metadata_available && self.staged is Some ==> r is Staged,
    {
        if !metadata_available {
            Phase::AwaitingMetadata
        } else if self.has_staged() {
            Phase::Staged
        } else {
            Phase::AwaitingProposal
        }
    }

    /// Stage a dequeued proposal together with its object's hashes. A
    /// proposal whose object yielded no hashes is dropped silently and
    /// nothing changes; it is not retried.
    pub fn stage(&mut self, proposal: MiningProposal, hashes: Vec<Hash256>)
        requires
            old(self).wf(),
            forall|i: int| 0 <= i < hashes@.len() ==> (#[trigger] hashes@[i]).wf(),
        ensures
            final(self).wf(),
            hashes@.len() == 0 ==> final(self).staged == old(self).staged,
            hashes@.len() > 0 ==> {
                &&& final(self).staged matches Some(d)
                &&& d.hashes == hashes
                &&& d.obj == proposal.pre_obj
            },
    {
        if hashes.len() > 0 {
            self.staged = Some(PoscanData { hashes, obj: proposal.pre_obj });
        }
    }

    /// Evaluate the staged candidate against the template current at this
    /// moment, consuming it either way. The proof-of-scan hash is derived
    /// from the template's own pre-hash, never from an earlier one, so a
    /// template change between staging and evaluation cannot produce a
    /// seal for a stale pre-hash. On success the seal and the payload are
    /// returned for submission; on failure the candidate is discarded.
    pub fn evaluate(&mut self, metadata: &BlockTemplateMetadata) -> (r: Option<(Seal, PoscanData)>)
        requires
            old(self).wf(),
            old(self).staged is Some,
        ensures
            final(self).staged is None,
            final(self).wf(),
            ({
                let d = old(self).staged->0;
                let poscan = spec_calc_hash(metadata.pre_hash@, d.hashes@[0]@);
                let work = spec_work(metadata.difficulty, metadata.pre_hash@, poscan);
                match r {
                    Some(pair) => {
                        &&& spec_meets_difficulty(work, metadata.difficulty)
                        &&& pair.0.work@ == work
                        &&& pair.0.difficulty == metadata.difficulty
                        &&& pair.1 == d
                    },
                    None => !spec_meets_difficulty(work, metadata.difficulty),
                }
            }),
    {
        let payload = self.staged.take().unwrap();
        let poscan_hash = calc_hash(&metadata.pre_hash, &payload.hashes[0]);
        let input = ComputeInput {
            difficulty: metadata.difficulty,
            pre_hash: metadata.pre_hash.duplicate(),
            poscan_hash,
        };
        let seal = input.compute();
        if meets_difficulty(&seal.work, &seal.difficulty) {
            Some((seal, payload))
        } else {
            None
        }
    }
}

/// Whether the coordinator may evaluate — and so possibly submit.
pub open spec fn spec_can_evaluate(c: Coordinator) -> bool {
    c.staged is Some
}

/// No duplicate submission: evaluation consumes the staged candidate
/// (`evaluate` leaves `staged` empty), and a coordinator with nothing
/// staged cannot evaluate, so nothing can be submitted twice without a
/// successful staging in between.
pub proof fn lemma_no_duplicate_submission(c: Coordinator)
    requires
        c.staged is None,
    ensures
        !spec_can_evaluate(c),
{
}

} // verus!
