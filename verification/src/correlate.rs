//! Callback correlation: a single-producer, single-value completion slot.
//!
//! Every asynchronous operation that crosses the language boundary hands
//! native code an opaque token and waits on a slot like this one.  Native
//! code answers once, from any thread; the trampoline that receives the
//! answer completes the slot.  The slot accepts at most one completion,
//! hands its value out at most once, and treats a completion after the
//! waiter has given up as a benign no-op — the waiting side may stop
//! waiting, but a late native answer must change nothing.

use vstd::prelude::*;

verus! {

/// Where a slot stands in its life.
#[derive(Debug, Clone, Copy, PartialEq, Eq, Structural)]
pub enum SlotPhase {
    /// Waiting for the one native answer.
    Pending,
    /// The answer arrived and has not been read yet.
    Delivered,
    /// The answer arrived and was read out.
    Taken,
    /// The waiter gave up; any later answer is refused quietly.
    Abandoned,
}

/// A one-shot completion slot carrying a value of type `T`.
pub struct CorrelationSlot<T> {
    phase: SlotPhase,
    value: Option<T>,
}

/// What one completion attempt does to a slot: accepted from `Pending`,
/// refused — with nothing changed — from every other phase.
pub open spec fn completion_accepted(phase: SlotPhase) -> bool {
    phase == SlotPhase::Pending
}

/// The phase one completion attempt leaves behind.
pub open spec fn phase_after_completion(phase: SlotPhase) -> SlotPhase {
    if completion_accepted(phase) {
        SlotPhase::Delivered
    } else {
        phase
    }
}

impl<T> CorrelationSlot<T> {
    pub closed spec fn phase(self) -> SlotPhase {
        self.phase
    }

    /// The value the slot holds while an answer waits to be read.
    pub closed spec fn held(self) -> Option<T> {
        self.value
    }

    pub open spec fn wf(self) -> bool {
        self.held() is Some <==> self.phase() == SlotPhase::Delivered
    }

    /// A fresh slot, registered before the native call is made.
    pub fn new() -> (r: Self)
        ensures
            r.wf(),
            r.phase() == SlotPhase::Pending,
    {
        CorrelationSlot { phase: SlotPhase::Pending, value: None }
    }

    /// Delivers the native answer.  Accepted — exactly once — while the
    /// slot is pending; refused, with the slot unchanged and the value
    /// dropped, in every other phase.
    pub fn complete(&mut self, v: T) -> (accepted: bool)
        requires
            old(self).wf(),
        ensures
            final(self).wf(),
            accepted == completion_accepted(old(self).phase()),
            final(self).phase() == phase_after_completion(old(self).phase()),
            accepted ==> final(self).held() == Some(v),
            !accepted ==> *final(self) == *old(self),
    {
        match self.phase {
            SlotPhase::Pending => {
                self.value = Some(v);
                self.phase = SlotPhase::Delivered;
                true
            },
            _ => false,
        }
    }

    /// Reads the delivered answer out, at most once: `Some` exactly on
    /// the first read after delivery, `None` in every other phase.
    pub fn take(&mut self) -> (r: Option<T>)
        requires
            old(self).wf(),
        ensures
            final(self).wf(),
            old(self).phase() == SlotPhase::Delivered ==> r == old(self).held()
                && final(self).phase() == SlotPhase::Taken,
            old(self).phase() != SlotPhase::Delivered ==> r is None && *final(self) == *old(self),
    {
        match self.phase {
            SlotPhase::Delivered => {
                self.phase = SlotPhase::Taken;
                self.value.take()
            },
            _ => None,
        }
    }

    /// The waiter gives up (cancellation, or a timeout).  Whatever the
    /// slot held is dropped; a later completion is refused.
    pub fn abandon(&mut self)
        requires
            old(self).wf(),
        ensures
            final(self).wf(),
            final(self).phase() == SlotPhase::Abandoned,
            final(self).held() is None,
    {
        self.phase = SlotPhase::Abandoned;
        self.value = None;
    }
}

/// An answer is delivered at most once: whenever a completion is
/// accepted, the very next completion attempt on that slot is refused,
/// whatever it carries.
pub proof fn lemma_second_completion_refused(phase: SlotPhase)
    requires
        completion_accepted(phase),
    ensures
        !completion_accepted(phase_after_completion(phase)),
{
}

/// A late answer is benign: once the waiter has abandoned the slot, a
/// completion is refused, and `complete` then leaves the slot unchanged.
pub proof fn lemma_late_completion_refused()
    ensures
        !completion_accepted(SlotPhase::Abandoned),
{
}

} // verus!
