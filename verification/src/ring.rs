//! The bounded log of completed traces.

use vstd::prelude::*;
use std::collections::VecDeque;
use crate::trace::{Trace, TraceView};

verus! {

/// How many completed traces are kept.
pub const TRACE_CAPACITY: usize = 1000;

/// What a log holding `log` holds after `trace` is committed: the trace goes to the
/// end, and at capacity the oldest entry leaves first.
pub open spec fn committed(log: Seq<TraceView>, trace: TraceView) -> Seq<TraceView> {
    if log.len() < TRACE_CAPACITY {
        log.push(trace)
    } else {
        log.drop_first().push(trace)
    }
}

/// What a log holds after the traces of `batch` are committed in order.
pub open spec fn committed_all(log: Seq<TraceView>, batch: Seq<TraceView>) -> Seq<TraceView>
    decreases batch.len(),
{
    if batch.len() == 0 {
        log
    } else {
        committed(committed_all(log, batch.drop_last()), batch.last())
    }
}

/// The last `n` entries of `s`, or all of `s` where it has fewer.
pub open spec fn latest(s: Seq<TraceView>, n: nat) -> Seq<TraceView> {
    if s.len() <= n {
        s
    } else {
        s.skip(s.len() - n)
    }
}

/// A first-in, first-out log of completed traces that keeps the newest
/// [`TRACE_CAPACITY`] of them.
pub struct TraceRing {
    entries: VecDeque<Trace>,
}

impl View for TraceRing {
    type V = Seq<TraceView>;

    closed spec fn view(&self) -> Seq<TraceView> {
        self.entries@.map_values(|t: Trace| t@)
    }
}

impl TraceRing {
    /// The log is within its capacity and every trace in it is complete.
    pub open spec fn wf(&self) -> bool {
        &&& self@.len() <= TRACE_CAPACITY
        &&& forall|i: int| 0 <= i < self@.len() ==> (#[trigger] self@[i]).is_complete()
    }

    /// An empty log.
    pub fn new() -> (r: TraceRing)
        ensures
            r@ == Seq::<TraceView>::empty(),
            r.wf(),
    {
        let r = TraceRing { entries: VecDeque::with_capacity(TRACE_CAPACITY) };
        assert(r@ =~= Seq::<TraceView>::empty());
        r
    }

    /// The number of traces held.
    pub fn len(&self) -> (n: usize)
        ensures
            n == self@.len(),
    {
        self.entries.len()
    }

    /// Appends a completed trace; at capacity the oldest trace is dropped first.
    pub fn commit(&mut self, trace: Trace)
        requires
            old(self).wf(),
            trace@.is_complete(),
        ensures
            final(self)@ == committed(old(self)@, trace@),
            final(self).wf(),
    {
        if self.entries.len() >= TRACE_CAPACITY {
            let _ = self.entries.pop_front();
        }
        self.entries.push_back(trace);
        assert(final(self)@ =~= committed(old(self)@, trace@));
    }

    /// A copy of the traces held, oldest first.
    pub fn snapshot(&self) -> (v: Vec<Trace>)
        ensures
            v@.map_values(|t: Trace| t@) == self@,
    {
        let mut v: Vec<Trace> = Vec::new();
        let mut i: usize = 0;
        while i < self.entries.len()
            invariant
                i <= self.entries.len(),
                v@.len() == i,
                forall|k: int| 0 <= k < i ==> v@[k]@ == self.entries@[k]@,
            decreases self.entries.len() - i,
        {
            v.push(self.entries[i].clone());
            i += 1;
        }
        assert(v@.map_values(|t: Trace| t@) =~= self@);
        v
    }
}

/// A log within its capacity stays within it, whatever is committed.
pub proof fn lemma_commit_bounded(log: Seq<TraceView>, trace: TraceView)
    requires
        log.len() <= TRACE_CAPACITY,
    ensures
        committed(log, trace).len() <= TRACE_CAPACITY,
        committed(log, trace).last() == trace,
{
}

/// Eviction is first-in, first-out: after any batch of commits to an empty log, the
/// log holds the newest [`TRACE_CAPACITY`] traces of the batch, in the order in which
/// they were committed.
pub proof fn lemma_ring_keeps_latest(batch: Seq<TraceView>)
    ensures
        committed_all(Seq::empty(), batch) == latest(batch, TRACE_CAPACITY as nat),
    decreases batch.len(),
{
    if batch.len() == 0 {
        assert(latest(batch, TRACE_CAPACITY as nat) =~= Seq::<TraceView>::empty());
    } else {
        let head = batch.drop_last();
        lemma_ring_keeps_latest(head);
        let before = latest(head, TRACE_CAPACITY as nat);
        assert(committed(before, batch.last()) =~= latest(batch, TRACE_CAPACITY as nat));
    }
}

} // verus!
