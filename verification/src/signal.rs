//! The exit signal: a single-fire latch shared by every actor, coordinating
//! shutdown. Fires meaningfully at most once per process; further fires are
//! no-ops, and every later observation sees it fired.
//!
//! The latch state is verified here; the shell pairs it with a wakeup
//! primitive so that blocked waiters are scheduled again when it fires.

use vstd::prelude::*;

verus! {

/// A single-fire, multi-observer latch.
pub struct ExitSignal {
    fired: bool,
}

impl ExitSignal {
    /// Whether the signal has fired.
    pub closed spec fn spec_fired(&self) -> bool {
        self.fired
    }

    /// A fresh, unfired signal.
    pub fn new() -> (s: Self)
        ensures
            !s.spec_fired(),
    {
        ExitSignal { fired: false }
    }

    /// Fires the signal. Idempotent: the state after a fire is the fired
    /// state, whatever the state was before, so concurrent or repeated
    /// fires all leave the same state.
    pub fn fire(&mut self)
        ensures
            final(self).spec_fired(),
    {
        self.fired = true;
    }

    /// Observes the signal; every observation after a fire reports `true`.
    pub fn is_fired(&self) -> (b: bool)
        ensures
            b == self.spec_fired(),
    {
        self.fired
    }
}

/// The latch has a single terminal state: any two fired signals are equal,
/// so firing an already-fired signal changes nothing, and every observer of
/// a fired signal sees the same thing. Together with `fire`'s postcondition
/// this makes the order of concurrent fires immaterial.
pub proof fn lemma_fired_state_unique(a: ExitSignal, b: ExitSignal)
    requires
        a.spec_fired(),
        b.spec_fired(),
    ensures
        a == b,
{
}

} // verus!
