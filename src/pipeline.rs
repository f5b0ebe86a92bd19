//! Promise pipelining: calls made on a capability that a pending result will
//! hold are queued against that result, and replayed in order once it
//! resolves, or rejected with its failure.
use vstd::prelude::*;
use crate::error::Error;

verus! {

/// A call issued on a capability: an identifier chosen by the caller, and the
/// method's slot in the interface.
#[derive(PartialEq, Eq, Structural, Clone, Copy, Debug)]
pub struct Call {
    pub id: u64,
    pub method: u16,
}

/// Where a pending result stands.
pub enum Resolution {
    /// The originating call has not completed.
    Pending,
    /// The originating call succeeded; the capability is the given handle.
    Resolved(u64),
    /// The originating call failed with the given error.
    Broken(Error),
}

/// What becomes of one call made on a pipelined capability.
pub enum Dispatch {
    /// Held until the originating call completes.
    Queued,
    /// To be delivered now to the given target.
    Deliver { target: u64, call: Call },
    /// Refused, with the error of the originating call.
    Reject { call: Call, error: Error },
}

/// The capability that a pending result will hold, and the calls queued on it.
pub struct PendingResult {
    pub resolution: Resolution,
    pub queue: Vec<Call>,
}

/// `d` rejects `c` with an error of the same kind and message as `e`.
pub open spec fn rejects_with(d: Dispatch, c: Call, e: Error) -> bool {
    match d {
        Dispatch::Reject { call, error } => call == c && error.kind == e.kind && error.description@
            == e.description@,
        _ => false,
    }
}

impl PendingResult {
    /// What making call `c` in state `self` does: `r` is the dispatch, and
    /// `after` the state that follows.
    pub open spec fn call_step(self, c: Call, r: Dispatch, after: PendingResult) -> bool {
        match self.resolution {
            Resolution::Pending => {
                &&& r is Queued
                &&& after.queue@ == self.queue@.push(c)
                &&& after.resolution is Pending
            },
            Resolution::Resolved(t) => {
                &&& r == (Dispatch::Deliver { target: t, call: c })
                &&& after == self
            },
            Resolution::Broken(e) => {
                &&& rejects_with(r, c, e)
                &&& after == self
            },
        }
    }

    /// What resolving the pending result to `target` does: `delivered` are
    /// the calls to hand to it, and `after` the state that follows.
    pub open spec fn resolve_step(self, target: u64, delivered: Seq<Call>, after: PendingResult) -> bool {
        &&& delivered == self.queue@
        &&& after.resolution == Resolution::Resolved(target)
        &&& after.queue@.len() == 0
    }

    /// Calls are queued only while the result is pending.
    pub open spec fn well_formed(self) -> bool {
        !(self.resolution is Pending) ==> self.queue@.len() == 0
    }

    pub fn new() -> (r: PendingResult)
        ensures
            r.resolution is Pending,
            r.queue@.len() == 0,
            r.well_formed(),
    {
        PendingResult { resolution: Resolution::Pending, queue: Vec::new() }
    }

    /// Makes call `c` on the pipelined capability.
    pub fn call(&mut self, c: Call) -> (r: Dispatch)
        requires
            old(self).well_formed(),
        ensures
            final(self).well_formed(),
            old(self).call_step(c, r, *final(self)),
    {
        match &self.resolution {
            Resolution::Pending => {
                self.queue.push(c);
                Dispatch::Queued
            },
            Resolution::Resolved(t) => Dispatch::Deliver { target: *t, call: c },
            Resolution::Broken(e) => Dispatch::Reject { call: c, error: e.duplicate() },
        }
    }

    /// The originating call succeeded with capability `target`: hands back
    /// the queued calls, in the order they were made, to be delivered to it.
    pub fn resolve(&mut self, target: u64) -> (r: Vec<Call>)
        requires
            old(self).resolution is Pending,
        ensures
            old(self).resolve_step(target, r@, *final(self)),
            final(self).well_formed(),
    {
        self.resolution = Resolution::Resolved(target);
        let mut q: Vec<Call> = Vec::new();
        std::mem::swap(&mut q, &mut self.queue);
        q
    }

    /// The originating call failed with `error`: hands back the queued calls,
    /// in the order they were made, each to be rejected with that error.
    pub fn fail(&mut self, error: Error) -> (r: Vec<Dispatch>)
        requires
            old(self).resolution is Pending,
        ensures
            r@.len() == old(self).queue@.len(),
            forall|k: int| 0 <= k < r@.len() ==> rejects_with(r@[k], old(self).queue@[k], error),
            final(self).resolution == Resolution::Broken(error),
            final(self).queue@.len() == 0,
            final(self).well_formed(),
    {
        let mut out: Vec<Dispatch> = Vec::new();
        let mut i: usize = 0;
        while i < self.queue.len()
            invariant
                self.queue == old(self).queue,
                i <= self.queue@.len(),
                out@.len() == i,
                forall|k: int| 0 <= k < i ==> rejects_with(out@[k], self.queue@[k], error),
            decreases self.queue@.len() - i,
        {
            out.push(Dispatch::Reject { call: self.queue[i], error: error.duplicate() });
            i = i + 1;
        }
        self.queue = Vec::new();
        self.resolution = Resolution::Broken(error);
        out
    }
}

/// A call made on a capability whose originating call failed is never
/// delivered: it is rejected with an error of the failure's kind, and the
/// capability stays broken with the same error, so every later call is
/// rejected too.
pub proof fn lemma_failure_propagates(p: PendingResult, error: Error, c: Call, r: Dispatch, after: PendingResult)
    requires
        p.resolution == Resolution::Broken(error),
        p.call_step(c, r, after),
    ensures
        r is Reject,
        r->Reject_call == c,
        r->Reject_error.kind == error.kind,
        after.resolution == Resolution::Broken(error),
{
}

/// Calls `first` then `second`, made on a capability while the result that
/// holds it is pending, are handed to its target in that order once it
/// resolves, after the calls queued before them.
pub proof fn lemma_pipelined_order(
    p0: PendingResult,
    first: Call,
    r1: Dispatch,
    p1: PendingResult,
    second: Call,
    r2: Dispatch,
    p2: PendingResult,
    target: u64,
    delivered: Seq<Call>,
    p3: PendingResult,
)
    requires
        p0.resolution is Pending,
        p0.call_step(first, r1, p1),
        p1.call_step(second, r2, p2),
        p2.resolve_step(target, delivered, p3),
    ensures
        r1 is Queued,
        r2 is Queued,
        delivered.len() == p0.queue@.len() + 2,
        delivered.subrange(0, p0.queue@.len() as int) == p0.queue@,
        delivered[p0.queue@.len() as int] == first,
        delivered[p0.queue@.len() as int + 1] == second,
        p3.resolution == Resolution::Resolved(target),
{
    assert(delivered.subrange(0, p0.queue@.len() as int) =~= p0.queue@);
}

} // verus!
