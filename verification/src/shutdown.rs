//! The server's shutdown coordinator.
//!
//! The accept loop runs under a two-stage interrupt discipline: a first
//! external interrupt stops accepting new sessions and lets in-flight
//! handlers finish normally; a second interrupt, received while at least one
//! handler is still running, propagates cancellation into every in-flight
//! handler, which kills their child processes; once the last handler joins,
//! the coordinator stops.  The [`Coordinator`] machine here tracks that state
//! and decides, per event, whether a new session may be accepted and whether
//! an interrupt must be propagated; the loop around it does the accepting,
//! spawning and joining.
use vstd::prelude::*;

verus! {

/// Stage of the server's shutdown coordinator.
#[derive(PartialEq, Eq, Structural, Clone, Copy, Debug)]
pub enum CoordinatorState {
    /// Accepting new sessions (initial).
    Accepting,
    /// First interrupt seen: no new sessions, in-flight handlers finish
    /// normally.
    Draining,
    /// Second interrupt seen while handlers remained: cancellation was
    /// propagated into every in-flight handler.
    Terminating,
    /// All handlers joined (terminal).
    Stopped,
}

/// Spec-level image of the coordinator: its stage and how many handlers are
/// in flight.
pub struct CoordinatorModel {
    pub state: CoordinatorState,
    pub active: nat,
}

/// The coordinator never stops while a handler is in flight, and it only
/// drains or terminates while one is.
pub open spec fn coordinator_wf(m: CoordinatorModel) -> bool {
    &&& (m.state == CoordinatorState::Stopped ==> m.active == 0)
    &&& ((m.state == CoordinatorState::Draining || m.state == CoordinatorState::Terminating)
        ==> m.active > 0)
}

/// State after one external interrupt, and whether that interrupt must be
/// propagated into the in-flight handlers (killing their child processes).
pub open spec fn interrupt_step(m: CoordinatorModel) -> (CoordinatorModel, bool) {
    match m.state {
        CoordinatorState::Accepting => if m.active == 0 {
            ((CoordinatorModel { state: CoordinatorState::Stopped, active: m.active }), false)
        } else {
            ((CoordinatorModel { state: CoordinatorState::Draining, active: m.active }), false)
        },
        CoordinatorState::Draining => (
            (CoordinatorModel { state: CoordinatorState::Terminating, active: m.active }),
            true,
        ),
        CoordinatorState::Terminating => (m, false),
        CoordinatorState::Stopped => (m, false),
    }
}

/// State after a new session arrives, and whether it is accepted: only while
/// the coordinator is still accepting.
pub open spec fn accept_step(m: CoordinatorModel) -> (CoordinatorModel, bool) {
    if m.state == CoordinatorState::Accepting {
        ((CoordinatorModel { state: m.state, active: m.active + 1 }), true)
    } else {
        (m, false)
    }
}

/// State after one in-flight handler finishes: once the last handler joins
/// after an interrupt, the coordinator stops.
pub open spec fn finish_step(m: CoordinatorModel) -> CoordinatorModel
    recommends
        m.active > 0,
{
    let a = (m.active - 1) as nat;
    if (m.state == CoordinatorState::Draining || m.state == CoordinatorState::Terminating) && a
        == 0 {
        CoordinatorModel { state: CoordinatorState::Stopped, active: a }
    } else {
        CoordinatorModel { state: m.state, active: a }
    }
}

/// Shutdown escalation: with at least one invocation in flight, the first
/// interrupt stops new sessions from being accepted but leaves every running
/// handler untouched (nothing is killed); a second interrupt while handlers
/// remain is propagated into all of them, forcing their child processes to
/// be killed.
pub proof fn lemma_shutdown_escalation(m: CoordinatorModel)
    requires
        m.state == CoordinatorState::Accepting,
        m.active > 0,
    ensures
        ({
            let (m1, kill1) = interrupt_step(m);
            let (m2, kill2) = interrupt_step(m1);
            &&& m1.state == CoordinatorState::Draining
            &&& !kill1
            &&& m1.active == m.active
            &&& !accept_step(m1).1
            &&& accept_step(m1).0 == m1
            &&& m2.state == CoordinatorState::Terminating
            &&& kill2
            &&& m2.active == m.active
        }),
{
}

/// With no invocation in flight, the first interrupt stops the coordinator
/// outright and nothing is killed.
pub proof fn lemma_interrupt_idle(m: CoordinatorModel)
    requires
        m.state == CoordinatorState::Accepting,
        m.active == 0,
    ensures
        interrupt_step(m).0.state == CoordinatorState::Stopped,
        !interrupt_step(m).1,
{
}

/// Leaving `Accepting` is permanent: no transition returns to it, so after
/// the first interrupt no new session is ever accepted.
pub proof fn lemma_draining_is_permanent(m: CoordinatorModel)
    requires
        m.state != CoordinatorState::Accepting,
    ensures
        accept_step(m).0.state != CoordinatorState::Accepting,
        !accept_step(m).1,
        interrupt_step(m).0.state != CoordinatorState::Accepting,
        m.active > 0 ==> finish_step(m).state != CoordinatorState::Accepting,
{
}

/// Every transition preserves the coordinator's well-formedness.
pub proof fn lemma_coordinator_wf_preserved(m: CoordinatorModel)
    requires
        coordinator_wf(m),
    ensures
        coordinator_wf(accept_step(m).0),
        coordinator_wf(interrupt_step(m).0),
        m.active > 0 ==> coordinator_wf(finish_step(m)),
{
}

/// The coordinator of the server's accept loop.  Its model
/// ([`CoordinatorModel`], reached by `@`) evolves in lock step with the spec
/// transitions above, so the escalation law holds of every run of this
/// machine.
pub struct Coordinator {
    state: CoordinatorState,
    active: u64,
}

impl View for Coordinator {
    type V = CoordinatorModel;

    closed spec fn view(&self) -> CoordinatorModel {
        CoordinatorModel { state: self.state, active: self.active as nat }
    }
}

impl Coordinator {
    /// A fresh coordinator: accepting, with no handler in flight.
    pub fn new() -> (c: Coordinator)
        ensures
            c@.state == CoordinatorState::Accepting,
            c@.active == 0,
            coordinator_wf(c@),
    {
        Coordinator { state: CoordinatorState::Accepting, active: 0 }
    }

    /// A new session arrived.  It is accepted, and a handler spawned for it,
    /// exactly while the coordinator is still accepting.
    pub fn try_accept(&mut self) -> (accepted: bool)
        requires
            old(self)@.active < 0xffff_ffff_ffff_ffff,
        ensures
            (final(self)@, accepted) == accept_step(old(self)@),
    {
        if self.state == CoordinatorState::Accepting {
            self.active = self.active + 1;
            true
        } else {
            false
        }
    }

    /// An external interrupt arrived.  Returns whether it must be propagated
    /// into the in-flight handlers, killing their child processes: exactly
    /// on the second interrupt while handlers remain.
    pub fn on_interrupt(&mut self) -> (kill: bool)
        ensures
            (final(self)@, kill) == interrupt_step(old(self)@),
    {
        match self.state {
            CoordinatorState::Accepting => {
                if self.active == 0 {
                    self.state = CoordinatorState::Stopped;
                } else {
                    self.state = CoordinatorState::Draining;
                }
                false
            },
            CoordinatorState::Draining => {
                self.state = CoordinatorState::Terminating;
                true
            },
            CoordinatorState::Terminating => false,
            CoordinatorState::Stopped => false,
        }
    }

    /// One in-flight handler finished and was joined.
    pub fn on_handler_finished(&mut self)
        requires
            old(self)@.active > 0,
        ensures
            final(self)@ == finish_step(old(self)@),
    {
        self.active = self.active - 1;
        if (self.state == CoordinatorState::Draining || self.state == CoordinatorState::Terminating)
            && self.active == 0 {
            self.state = CoordinatorState::Stopped;
        }
    }

    /// The coordinator's stage.
    pub fn state(&self) -> (s: CoordinatorState)
        ensures
            s == self@.state,
    {
        self.state
    }

    /// How many handlers are in flight.
    pub fn active(&self) -> (n: u64)
        ensures
            n as nat == self@.active,
    {
        self.active
    }
}

} // verus!
