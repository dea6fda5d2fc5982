//! The renderer's decision core.
//!
//! Painting, pacing delays, and key polling are terminal work and live with
//! the caller; this state machine decides which event to paint next, whether
//! a cancellation may be honoured at all, and whether the render completed.
//! A render completes exactly when every event was painted and no
//! cancellation arrived; cancellation can only arrive while pacing is on,
//! because an unpaced render never waits for input.

use vstd::prelude::*;

verus! {

/// The state of one render pass over an event sequence of `total` events.
pub struct Renderer {
    /// Index of the next event to paint.
    pub next: usize,
    /// How many events the pass covers.
    pub total: usize,
    /// Whether output is paced for a live-growth effect; only a paced pass
    /// ever polls for cancellation.
    pub live: bool,
    /// Whether a key press cancelled the pass.
    pub cancelled: bool,
}

impl Renderer {
    /// The pass never walks past its event sequence, and only a paced pass
    /// can have been cancelled.
    pub open spec fn wf(self) -> bool {
        &&& self.next <= self.total
        &&& self.cancelled ==> self.live
    }

    /// A pass is complete when every event was painted and nothing
    /// cancelled it.
    pub open spec fn spec_completed(self) -> bool {
        self.next == self.total && !self.cancelled
    }

    /// Starts a render pass over `total` events.
    pub fn new(total: usize, live: bool) -> (r: Renderer)
        ensures
            r.wf(),
            r.next == 0,
            r.total == total,
            r.live == live,
            !r.cancelled,
    {
        Renderer { next: 0, total, live, cancelled: false }
    }

    /// Hands out the index of the next event to paint and advances past it,
    /// or reports that the pass is over (everything painted, or cancelled).
    pub fn take_paint(&mut self) -> (idx: Option<usize>)
        requires
            old(self).wf(),
        ensures
            final(self).wf(),
            final(self).total == old(self).total,
            final(self).live == old(self).live,
            final(self).cancelled == old(self).cancelled,
            old(self).cancelled || old(self).next == old(self).total ==> idx is None
                && *final(self) == *old(self),
            !old(self).cancelled && old(self).next < old(self).total ==> idx == Some(
                old(self).next,
            ) && final(self).next == old(self).next + 1,
    {
        if self.cancelled || self.next >= self.total {
            None
        } else {
            let idx = self.next;
            self.next = idx + 1;
            Some(idx)
        }
    }

    /// Records a cancellation: a key press arrived during a pacing delay.
    /// Only a paced pass waits for input, so only a paced pass can be
    /// cancelled.
    pub fn cancel(&mut self)
        requires
            old(self).wf(),
            old(self).live,
        ensures
            final(self).wf(),
            final(self).next == old(self).next,
            final(self).total == old(self).total,
            final(self).live == old(self).live,
            final(self).cancelled,
    {
        self.cancelled = true;
    }

    /// Whether the pass painted everything without being cancelled.
    pub fn completed(&self) -> (done: bool)
        ensures
            done == self.spec_completed(),
    {
        self.next == self.total && !self.cancelled
    }
}

/// With pacing disabled a render pass can never be cancelled, so once it has
/// handed out every event it reports completion — for any event sequence and
/// any input source.
pub proof fn lemma_unpaced_render_completes(r: Renderer)
    requires
        r.wf(),
        !r.live,
        r.next == r.total,
    ensures
        r.spec_completed(),
{
}

} // verus!
