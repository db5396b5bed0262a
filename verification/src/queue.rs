//! The candidate queue: a FIFO of mining proposals.
//!
//! The scanning subsystem appends proposals at the tail; the coordinator
//! removes them at the head, one per iteration, in arrival order. A
//! rejected proposal is dropped, never requeued. Sharing the queue between
//! the producer and the consumer threads is the caller's concern.

use std::collections::VecDeque;
use vstd::prelude::*;

verus! {

/// A candidate object submitted by the scanning subsystem. Immutable once
/// enqueued; consumed exactly once.
pub struct MiningProposal {
    pub pre_obj: Vec<u8>,
}

impl View for MiningProposal {
    type V = Seq<u8>;

    open spec fn view(&self) -> Seq<u8> {
        self.pre_obj@
    }
}

/// The queue's contents after one enqueue: the proposal joins the tail.
pub open spec fn spec_enqueue(q: Seq<Seq<u8>>, p: Seq<u8>) -> Seq<Seq<u8>> {
    q.push(p)
}

/// What one dequeue leaves and returns: the head leaves, or nothing does.
pub open spec fn spec_dequeue(q: Seq<Seq<u8>>) -> (Seq<Seq<u8>>, Option<Seq<u8>>) {
    if q.len() == 0 {
        (q, None)
    } else {
        (q.subrange(1, q.len() as int), Some(q[0]))
    }
}

/// A FIFO of proposals, viewed as the sequence of their objects' bytes,
/// head first.
pub struct CandidateQueue {
    pub items: VecDeque<MiningProposal>,
}

impl View for CandidateQueue {
    type V = Seq<Seq<u8>>;

    open spec fn view(&self) -> Seq<Seq<u8>> {
        self.items@.map_values(|p: MiningProposal| p.pre_obj@)
    }
}

impl CandidateQueue {
    pub fn new() -> (r: CandidateQueue)
        ensures
            r@ == Seq::<Seq<u8>>::empty(),
    {
        let q = CandidateQueue { items: VecDeque::new() };
        assert(q@ =~= Seq::<Seq<u8>>::empty());
        q
    }

    pub fn len(&self) -> (r: usize)
        ensures
            r == self@.len(),
    {
        self.items.len()
    }

    /// Append a proposal at the tail.
    pub fn enqueue(&mut self, proposal: MiningProposal)
        ensures
            final(self)@ == spec_enqueue(old(self)@, proposal@),
    {
        self.items.push_back(proposal);
        assert(final(self)@ =~= old(self)@.push(proposal@));
    }

    /// Remove and return the head, or signal an empty queue.
    pub fn dequeue(&mut self) -> (r: Option<MiningProposal>)
        ensures
            final(self)@ == spec_dequeue(old(self)@).0,
            r is None <==> old(self)@.len() == 0,
            r matches Some(p) ==> spec_dequeue(old(self)@).1 == Some(p@),
    {
        let r = self.items.pop_front();
        proof {
            if old(self)@.len() > 0 {
                assert(final(self)@ =~= old(self)@.subrange(1, old(self)@.len() as int));
            } else {
                assert(final(self)@ =~= old(self)@);
            }
        }
        r
    }
}

/// The queue's contents after a run of enqueues, oldest first.
pub open spec fn spec_enqueue_all(q: Seq<Seq<u8>>, ps: Seq<Seq<u8>>) -> Seq<Seq<u8>>
    decreases ps.len(),
{
    if ps.len() == 0 {
        q
    } else {
        spec_enqueue_all(spec_enqueue(q, ps[0]), ps.subrange(1, ps.len() as int))
    }
}

/// What the k-th dequeue returns, counting from zero.
pub open spec fn spec_nth_dequeued(q: Seq<Seq<u8>>, k: nat) -> Option<Seq<u8>>
    decreases k,
{
    if k == 0 {
        spec_dequeue(q).1
    } else {
        spec_nth_dequeued(spec_dequeue(q).0, (k - 1) as nat)
    }
}

/// A run of enqueues appends the proposals in order.
pub proof fn lemma_enqueue_all_appends(q: Seq<Seq<u8>>, ps: Seq<Seq<u8>>)
    ensures
        spec_enqueue_all(q, ps) == q + ps,
    decreases ps.len(),
{
    if ps.len() == 0 {
        assert(spec_enqueue_all(q, ps) =~= q + ps);
    } else {
        let rest = ps.subrange(1, ps.len() as int);
        lemma_enqueue_all_appends(spec_enqueue(q, ps[0]), rest);
        assert(q.push(ps[0]) + rest =~= q + ps);
    }
}

/// Dequeues walk the queue from the head in order.
pub proof fn lemma_nth_dequeued(q: Seq<Seq<u8>>, k: nat)
    requires
        k < q.len(),
    ensures
        spec_nth_dequeued(q, k) == Some(q[k as int]),
    decreases k,
{
    if k > 0 {
        lemma_nth_dequeued(q.subrange(1, q.len() as int), (k - 1) as nat);
    }
}

/// FIFO: enqueue `p1, ..., pn` into an empty queue with no interleaved
/// dequeues; then for each `k`, the k-th dequeue returns `pk`.
pub proof fn lemma_queue_fifo(ps: Seq<Seq<u8>>, k: nat)
    requires
        k < ps.len(),
    ensures
        spec_nth_dequeued(spec_enqueue_all(Seq::empty(), ps), k) == Some(ps[k as int]),
{
    lemma_enqueue_all_appends(Seq::empty(), ps);
    assert(Seq::empty() + ps =~= ps);
    lemma_nth_dequeued(ps, k);
}

} // verus!
