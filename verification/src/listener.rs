//! One listener loop's state: accepting, draining after the shutdown signal,
//! stopped once every handler it spawned has completed. Drain is accounted
//! explicitly — the loop reports Stopped only when the count of outstanding
//! handlers reaches zero.

use vstd::prelude::*;

verus! {

/// Per-address runtime state of a listener loop.
#[derive(Clone, Copy, PartialEq, Eq, Structural, Debug)]
pub enum ListenerState {
    /// Accepting inbound connections.
    Accepting,
    /// The shutdown signal was observed: no new accepts, waiting for
    /// outstanding handlers.
    Draining,
    /// Every outstanding handler has completed.
    Stopped,
}

/// One listener's drain accounting: its state and how many connections it
/// has accepted and seen completed.
#[derive(Clone, Copy, PartialEq, Eq, Structural, Debug)]
pub struct Listener {
    /// The lifecycle state.
    pub state: ListenerState,
    /// Connections accepted so far.
    pub accepted: u64,
    /// Handlers that have run to completion so far.
    pub completed: u64,
}

/// One step of a listener's life, as its loop observes it.
#[derive(Clone, Copy, PartialEq, Eq, Structural, Debug)]
pub enum ListenerEvent {
    /// An inbound connection was accepted and its handler spawned.
    Accepted,
    /// One spawned handler ran to completion.
    HandlerDone,
    /// The shutdown broadcast was observed.
    ShutdownObserved,
    /// Draining found no handler outstanding.
    DrainComplete,
}

impl Listener {
    /// Handlers still in flight.
    pub open spec fn outstanding(self) -> int {
        self.accepted - self.completed
    }

    /// Well-formedness: completions never outrun accepts, and a stopped
    /// listener has drained every handler.
    pub open spec fn wf(self) -> bool {
        &&& self.completed <= self.accepted
        &&& (self.state is Stopped ==> self.completed == self.accepted)
    }

    /// Whether this listener may accept a new connection.
    pub open spec fn may_accept(self) -> bool {
        self.state is Accepting
    }

    /// The state a fresh listener starts in: accepting, nothing accepted.
    pub open spec fn new_model() -> Listener {
        Listener { state: ListenerState::Accepting, accepted: 0, completed: 0 }
    }

    /// A fresh listener for one bound address.
    pub fn new() -> (l: Listener)
        ensures
            l == Listener::new_model(),
            l.wf(),
            l.state is Accepting,
            l.accepted == 0,
            l.completed == 0,
    {
        Listener { state: ListenerState::Accepting, accepted: 0, completed: 0 }
    }

    /// Record one accepted connection; its handler is now outstanding.
    pub fn on_accept(&mut self)
        requires
            old(self).wf(),
            old(self).may_accept(),
            old(self).accepted < u64::MAX,
        ensures
            *final(self) == step(*old(self), ListenerEvent::Accepted),
            final(self).wf(),
    {
        self.accepted = self.accepted + 1;
    }

    /// Record one handler's completion.
    pub fn on_handler_done(&mut self)
        requires
            old(self).wf(),
            old(self).completed < old(self).accepted,
        ensures
            *final(self) == step(*old(self), ListenerEvent::HandlerDone),
            final(self).wf(),
    {
        self.completed = self.completed + 1;
    }

    /// Observe the shutdown broadcast: stop accepting, begin draining.
    pub fn on_shutdown(&mut self)
        requires
            old(self).wf(),
            old(self).state is Accepting,
        ensures
            *final(self) == step(*old(self), ListenerEvent::ShutdownObserved),
            final(self).wf(),
            !final(self).may_accept(),
    {
        self.state = ListenerState::Draining;
    }

    /// Report Stopped: only once draining finds nothing outstanding.
    pub fn finish_drain(&mut self)
        requires
            old(self).wf(),
            old(self).state is Draining,
            old(self).completed == old(self).accepted,
        ensures
            *final(self) == step(*old(self), ListenerEvent::DrainComplete),
            final(self).wf(),
            final(self).state is Stopped,
    {
        self.state = ListenerState::Stopped;
    }
}

/// When an event can happen to a listener.
pub open spec fn enabled(l: Listener, e: ListenerEvent) -> bool {
    match e {
        ListenerEvent::Accepted => l.state is Accepting && l.accepted < u64::MAX,
        ListenerEvent::HandlerDone => l.completed < l.accepted,
        ListenerEvent::ShutdownObserved => l.state is Accepting,
        ListenerEvent::DrainComplete => l.state is Draining && l.completed == l.accepted,
    }
}

/// What an event does to a listener.
pub open spec fn step(l: Listener, e: ListenerEvent) -> Listener {
    match e {
        ListenerEvent::Accepted => Listener { accepted: (l.accepted + 1) as u64, ..l },
        ListenerEvent::HandlerDone => Listener { completed: (l.completed + 1) as u64, ..l },
        ListenerEvent::ShutdownObserved => Listener { state: ListenerState::Draining, ..l },
        ListenerEvent::DrainComplete => Listener { state: ListenerState::Stopped, ..l },
    }
}

/// The listener a run of events leads to.
pub open spec fn run(l: Listener, es: Seq<ListenerEvent>) -> Listener
    decreases es.len(),
{
    if es.len() == 0 {
        l
    } else {
        run(step(l, es[0]), es.drop_first())
    }
}

/// Whether every event of a run is enabled when its turn comes.
pub open spec fn run_enabled(l: Listener, es: Seq<ListenerEvent>) -> bool
    decreases es.len(),
{
    es.len() == 0 || (enabled(l, es[0]) && run_enabled(step(l, es[0]), es.drop_first()))
}

/// Law: every enabled event preserves well-formedness.
pub proof fn lemma_step_preserves_wf(l: Listener, e: ListenerEvent)
    requires
        l.wf(),
        enabled(l, e),
    ensures
        step(l, e).wf(),
{
}

/// Law: a run of enabled events preserves well-formedness.
pub proof fn lemma_run_preserves_wf(l: Listener, es: Seq<ListenerEvent>)
    requires
        l.wf(),
        run_enabled(l, es),
    ensures
        run(l, es).wf(),
    decreases es.len(),
{
    if es.len() > 0 {
        lemma_step_preserves_wf(l, es[0]);
        lemma_run_preserves_wf(step(l, es[0]), es.drop_first());
    }
}

/// Law: a well-formed listener that reports Stopped has seen every accepted
/// connection's handler complete — nothing is in flight.
pub proof fn lemma_stopped_means_drained(l: Listener)
    requires
        l.wf(),
        l.state is Stopped,
    ensures
        l.completed == l.accepted,
        l.outstanding() == 0,
{
}

/// Law: once a listener has left the accepting state, no run of enabled
/// events ever accepts another connection, and it never accepts again.
pub proof fn lemma_no_accept_after_shutdown(l: Listener, es: Seq<ListenerEvent>)
    requires
        !l.may_accept(),
        run_enabled(l, es),
    ensures
        forall|i: int| 0 <= i < es.len() ==> es[i] != ListenerEvent::Accepted,
        !run(l, es).may_accept(),
    decreases es.len(),
{
    if es.len() > 0 {
        let l1 = step(l, es[0]);
        assert(!l1.may_accept());
        lemma_no_accept_after_shutdown(l1, es.drop_first());
        assert forall|i: int| 0 <= i < es.len() implies es[i] != ListenerEvent::Accepted by {
            if i > 0 {
                assert(es[i] == es.drop_first()[i - 1]);
            }
        }
    }
}

} // verus!
