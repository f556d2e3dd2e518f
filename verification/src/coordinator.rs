//! The service coordinator: the configured addresses, and the whole service
//! as one machine — bound listeners started all-or-nothing, one shutdown
//! broadcaster fired by the first OS signal, every listener drained before
//! the run reports its single outcome.

use vstd::prelude::*;
use crate::listener::Listener;
use crate::listener::ListenerEvent;
use crate::outcome::Outcome;
use crate::outcome::ServiceError;
use crate::signal::Broadcaster;

verus! {

/// One configured listen endpoint: the host as text bytes, and the port.
#[derive(Clone, PartialEq, Eq, Debug)]
pub struct ListenAddress {
    /// The host, as the bytes of its textual form.
    pub host: Vec<u8>,
    /// The port.
    pub port: u16,
}

/// The default host text: `0.0.0.0`.
pub open spec fn default_host() -> Seq<u8> {
    seq![48u8, 46u8, 48u8, 46u8, 48u8, 46u8, 48u8]
}

/// The default port.
pub const DEFAULT_PORT: u16 = 8080;

/// The endpoint used when none is configured: `0.0.0.0:8080`.
pub fn default_address() -> (a: ListenAddress)
    ensures
        a.host@ == default_host(),
        a.port == DEFAULT_PORT,
{
    let mut h: Vec<u8> = Vec::new();
    h.push(48u8);
    h.push(46u8);
    h.push(48u8);
    h.push(46u8);
    h.push(48u8);
    h.push(46u8);
    h.push(48u8);
    proof {
        assert(h@ =~= default_host());
    }
    ListenAddress { host: h, port: DEFAULT_PORT }
}

/// The effective configuration: the given addresses in their order, or the
/// default endpoint alone when none were given. Never empty.
pub fn effective_addresses(addrs: Vec<ListenAddress>) -> (r: Vec<ListenAddress>)
    ensures
        r@.len() >= 1,
        addrs@.len() > 0 ==> r@ == addrs@,
        addrs@.len() == 0 ==> r@.len() == 1 && r@[0].host@ == default_host() && r@[0].port
            == DEFAULT_PORT,
{
    if addrs.len() > 0 {
        addrs
    } else {
        let mut v: Vec<ListenAddress> = Vec::new();
        v.push(default_address());
        v
    }
}

/// The coordinator's phase.
#[derive(Clone, Copy, PartialEq, Eq, Structural, Debug)]
pub enum Phase {
    /// Every listener is bound and serving; no shutdown has fired.
    Running,
    /// Shutdown has fired; listeners are finishing their in-flight work.
    Draining,
    /// The run is over and its outcome has been produced.
    Finished,
}

/// The whole service as the coordinator sees it: its phase, the one
/// shutdown broadcaster, and one listener record per bound address.
#[derive(Debug)]
pub struct Service {
    /// The coordinator's phase.
    pub phase: Phase,
    /// The shutdown broadcaster every listener observes.
    pub shutdown: Broadcaster,
    /// One record per bound address, in address order.
    pub listeners: Vec<Listener>,
}

/// What the first OS signal does to the service: while running it fires the
/// broadcaster and commits to draining; afterwards it changes nothing.
pub open spec fn signal_model(s: Service) -> Service {
    if s.phase is Running {
        Service { phase: Phase::Draining, shutdown: s.shutdown.after_fire(), ..s }
    } else {
        s
    }
}

impl Service {
    /// Well-formedness: every listener record is well-formed, the running
    /// phase precedes any firing, and draining only follows one.
    pub open spec fn wf(self) -> bool {
        &&& forall|i: int| 0 <= i < self.listeners@.len() ==> (#[trigger] self.listeners@[i]).wf()
        &&& (self.phase is Running ==> !self.shutdown.is_fired())
        &&& (self.phase is Draining ==> self.shutdown.is_fired())
    }

    /// Whether listener `i` may accept a connection now.
    pub open spec fn accept_permitted(self, i: int) -> bool {
        &&& self.phase is Running
        &&& 0 <= i < self.listeners@.len()
        &&& self.listeners@[i].may_accept()
    }

    /// Start the service over the bind outcomes, all-or-nothing: it runs
    /// exactly when every address bound, with one fresh listener per
    /// address and nothing yet accepted anywhere; any bind failure aborts
    /// startup with the first failing address and no listener starts.
    pub fn start(binds: &Vec<Outcome>) -> (r: Result<Service, ServiceError>)
        ensures
            match r {
                Ok(s) => {
                    &&& crate::outcome::startup_model(binds@) is Ok
                    &&& s.wf()
                    &&& s.phase is Running
                    &&& !s.shutdown.is_fired()
                    &&& s.listeners@.len() == binds@.len()
                    &&& forall|i: int|
                        0 <= i < s.listeners@.len() ==> (#[trigger] s.listeners@[i])
                            == Listener::new_model()
                },
                Err(e) => crate::outcome::startup_model(binds@) == Err::<(), ServiceError>(e),
            },
    {
        match crate::outcome::startup_outcome(binds) {
            Err(e) => Err(e),
            Ok(()) => {
                let mut listeners: Vec<Listener> = Vec::new();
                let mut i: usize = 0;
                while i < binds.len()
                    invariant
                        i <= binds@.len(),
                        listeners@.len() == i,
                        forall|j: int|
                            0 <= j < i ==> (#[trigger] listeners@[j]) == Listener::new_model(),
                    decreases binds@.len() - i,
                {
                    listeners.push(Listener::new());
                    i = i + 1;
                }
                Ok(Service { phase: Phase::Running, shutdown: Broadcaster::new(), listeners })
            },
        }
    }

    /// Whether listener `i` may accept a connection now.
    pub fn accept_allowed(&self, i: usize) -> (b: bool)
        ensures
            b == self.accept_permitted(i as int),
    {
        matches!(self.phase, Phase::Running) && i < self.listeners.len() && matches!(
            self.listeners[i].state,
            crate::listener::ListenerState::Accepting,
        )
    }

    /// Listener `i` accepts one connection and spawns its handler.
    pub fn on_accept(&mut self, i: usize)
        requires
            old(self).wf(),
            old(self).accept_permitted(i as int),
            old(self).listeners@[i as int].accepted < u64::MAX,
        ensures
            final(self).wf(),
            final(self).phase == old(self).phase,
            final(self).shutdown == old(self).shutdown,
            final(self).listeners@ == old(self).listeners@.update(
                i as int,
                crate::listener::step(old(self).listeners@[i as int], ListenerEvent::Accepted),
            ),
    {
        let mut l = self.listeners[i];
        l.on_accept();
        self.listeners[i] = l;
    }

    /// One of listener `i`'s handlers runs to completion — before or after
    /// shutdown: in-flight work always finishes.
    pub fn on_handler_done(&mut self, i: usize)
        requires
            old(self).wf(),
            i < old(self).listeners@.len(),
            old(self).listeners@[i as int].completed < old(self).listeners@[i as int].accepted,
        ensures
            final(self).wf(),
            final(self).phase == old(self).phase,
            final(self).shutdown == old(self).shutdown,
            final(self).listeners@ == old(self).listeners@.update(
                i as int,
                crate::listener::step(old(self).listeners@[i as int], ListenerEvent::HandlerDone),
            ),
    {
        let mut l = self.listeners[i];
        l.on_handler_done();
        self.listeners[i] = l;
    }

    /// An OS signal (interrupt or terminate) arrives: the first one fires
    /// the broadcaster and commits the coordinator to draining; any later
    /// one changes nothing.
    pub fn on_signal(&mut self)
        requires
            old(self).wf(),
        ensures
            *final(self) == signal_model(*old(self)),
            final(self).wf(),
            !(final(self).phase is Running),
    {
        match self.phase {
            Phase::Running => {
                let _first = self.shutdown.fire();
                self.phase = Phase::Draining;
            },
            Phase::Draining => {},
            Phase::Finished => {},
        }
    }

    /// Listener `i` observes the fired broadcaster: it stops accepting and
    /// begins draining.
    pub fn on_observe(&mut self, i: usize)
        requires
            old(self).wf(),
            old(self).phase is Draining,
            i < old(self).listeners@.len(),
            old(self).listeners@[i as int].state is Accepting,
        ensures
            final(self).wf(),
            final(self).phase == old(self).phase,
            final(self).shutdown == old(self).shutdown,
            final(self).listeners@ == old(self).listeners@.update(
                i as int,
                crate::listener::step(
                    old(self).listeners@[i as int],
                    ListenerEvent::ShutdownObserved,
                ),
            ),
    {
        let mut l = self.listeners[i];
        l.on_shutdown();
        self.listeners[i] = l;
    }

    /// Listener `i`, draining with nothing outstanding, reports Stopped.
    pub fn on_drained(&mut self, i: usize)
        requires
            old(self).wf(),
            i < old(self).listeners@.len(),
            old(self).listeners@[i as int].state is Draining,
            old(self).listeners@[i as int].completed == old(self).listeners@[i as int].accepted,
        ensures
            final(self).wf(),
            final(self).phase == old(self).phase,
            final(self).shutdown == old(self).shutdown,
            final(self).listeners@ == old(self).listeners@.update(
                i as int,
                crate::listener::step(old(self).listeners@[i as int], ListenerEvent::DrainComplete),
            ),
            final(self).listeners@[i as int].state is Stopped,
    {
        let mut l = self.listeners[i];
        l.finish_drain();
        self.listeners[i] = l;
    }

    /// End a drained run: every listener has reported Stopped, every loop
    /// has returned. Clean exactly when every loop succeeded; otherwise the
    /// first loop failure in listener order.
    pub fn finish_drained(&mut self, results: &Vec<Outcome>) -> (out: Result<(), ServiceError>)
        requires
            old(self).wf(),
            old(self).phase is Draining,
            forall|i: int|
                0 <= i < old(self).listeners@.len() ==> (#[trigger] old(self).listeners@[i]).state
                    is Stopped,
            results@.len() == old(self).listeners@.len(),
        ensures
            final(self).wf(),
            final(self).phase is Finished,
            final(self).shutdown == old(self).shutdown,
            final(self).listeners == old(self).listeners,
            out == crate::outcome::drain_model(results@),
    {
        self.phase = Phase::Finished;
        crate::outcome::drain_outcome(results)
    }

    /// End a run whose loops all returned while the service was still
    /// running: always a failure, since shutdown was never fired.
    pub fn finish_unexpected(&mut self, results: &Vec<Outcome>) -> (e: ServiceError)
        requires
            old(self).wf(),
            old(self).phase is Running,
            results@.len() == old(self).listeners@.len(),
        ensures
            final(self).wf(),
            final(self).phase is Finished,
            final(self).shutdown == old(self).shutdown,
            final(self).listeners == old(self).listeners,
            e == crate::outcome::unexpected_exit_model(results@),
    {
        self.phase = Phase::Finished;
        crate::outcome::unexpected_exit_outcome(results)
    }
}

/// Law: a second signal after the first has no further effect — committing
/// to shutdown is idempotent.
pub proof fn lemma_signal_idempotent(s: Service)
    ensures
        signal_model(signal_model(s)) == signal_model(s),
{
}

/// Law: after the broadcaster has fired, a well-formed service is past its
/// running phase, so a further signal changes nothing at all.
pub proof fn lemma_signal_after_fire_no_effect(s: Service)
    requires
        s.wf(),
        s.shutdown.is_fired(),
    ensures
        signal_model(s) == s,
{
}

/// Law: once the shutdown broadcaster has fired, a well-formed service is no
/// longer running, so no listener is permitted to accept a connection.
pub proof fn lemma_no_accept_after_fire(s: Service)
    requires
        s.wf(),
        s.shutdown.is_fired(),
    ensures
        forall|i: int| !s.accept_permitted(i),
{
}

/// Law: a well-formed service that finishes a drain has seen every accepted
/// connection of every listener completed — nothing in flight is dropped.
pub proof fn lemma_drained_service_dropped_nothing(s: Service)
    requires
        s.wf(),
        forall|i: int| 0 <= i < s.listeners@.len() ==> (#[trigger] s.listeners@[i]).state
            is Stopped,
    ensures
        forall|i: int|
            0 <= i < s.listeners@.len() ==> (#[trigger] s.listeners@[i]).completed == s.listeners@[
                i
            ].accepted,
{
    assert forall|i: int| 0 <= i < s.listeners@.len() implies (#[trigger] s.listeners@[i]).completed
        == s.listeners@[i].accepted by {
        crate::listener::lemma_stopped_means_drained(s.listeners@[i]);
    }
}

} // verus!
