//! The shutdown broadcaster: one logical flag, fired at most once with
//! effect, observed by every listener loop.

use vstd::prelude::*;

verus! {

/// A single broadcast shutdown signal with two states: not-yet-fired and
/// fired. The transition to fired is irreversible, and firing again has no
/// further effect.
#[derive(Clone, Copy, PartialEq, Eq, Structural, Debug)]
pub struct Broadcaster {
    pub fired: bool,
}

impl Broadcaster {
    /// Whether the signal has been fired.
    pub open spec fn is_fired(self) -> bool {
        self.fired
    }

    /// The state any firing leads to, whatever the state before.
    pub open spec fn after_fire(self) -> Broadcaster {
        Broadcaster { fired: true }
    }

    /// A fresh broadcaster: not yet fired.
    pub fn new() -> (b: Broadcaster)
        ensures
            !b.is_fired(),
    {
        Broadcaster { fired: false }
    }

    /// Fire the signal. Returns true exactly when this call was the first
    /// firing; later calls succeed but change nothing.
    pub fn fire(&mut self) -> (first: bool)
        ensures
            *final(self) == old(self).after_fire(),
            final(self).is_fired(),
            first == !old(self).is_fired(),
    {
        let was: bool = self.fired;
        self.fired = true;
        !was
    }

    /// Observe the current state of the signal.
    pub fn observe(&self) -> (f: bool)
        ensures
            f == self.is_fired(),
    {
        self.fired
    }
}

/// Law: firing is idempotent — a second firing leaves the state exactly as
/// the first left it.
pub proof fn lemma_fire_idempotent(b: Broadcaster)
    ensures
        b.after_fire().after_fire() == b.after_fire(),
{
}

/// Law: the fired state is irreversible along firings — after any firing the
/// signal is fired, whatever the state before.
pub proof fn lemma_fire_fires(b: Broadcaster)
    ensures
        b.after_fire().is_fired(),
{
}

} // verus!
