//! Life cycle of one accepted invocation on the server.
//!
//! The handler runs the session protocol as responder, spawns the target
//! program, wires three pipe tasks between the child's standard streams and
//! the connection, races the child's natural exit against the process-wide
//! interrupt (on interrupt it kills the child and then still awaits its now
//! forced exit), writes the exit code on the Command Channel exactly once
//! and only after the child has fully exited, then cancels and joins its
//! pipe tasks.  Any failure is confined to this one invocation.  The
//! [`ServerHandler`] machine decides each of those steps; the async task
//! around it performs the transport, spawn, kill and wait calls.
use vstd::prelude::*;

use crate::exit_code::exit_code_bytes;
use crate::exit_code::encode_exit_code;

verus! {

/// Why one invocation failed.  Such a failure is reported to the operator
/// for this connection only; no exit code is written on the wire.
#[derive(PartialEq, Eq, Structural, Clone, Copy, Debug)]
pub enum HandlerError {
    /// Accepting or opening a stream, or decoding the command line, failed.
    SetupFailed,
    /// The target program could not be spawned.
    SpawnFailed,
    /// The child was reaped without an exit code (killed by a signal).
    MissingExitCode,
}

/// Where one invocation stands.
pub enum HandlerPhase {
    /// Executing the session protocol as responder and decoding the command.
    Setup,
    /// Setup done: the child process is constructed but not yet started.
    Spawning,
    /// The child runs; three pipe tasks forward its standard streams.
    Running,
    /// The child has fully exited with this code, not yet reported.
    Exited(u32),
    /// The exit code was written on the Command Channel; the pipe tasks are
    /// cancelled and joined (terminal).
    Reported(u32),
    /// The invocation failed; nothing is written on the wire (terminal).
    Failed(HandlerError),
}

/// Spec-level image of a handler: its phase and whether the process-wide
/// interrupt was observed while the child ran.
pub struct HandlerModel {
    pub phase: HandlerPhase,
    pub interrupted: bool,
}

/// One event a handler observes.
pub enum HandlerEvent {
    /// The all-or-nothing setup join finished, successfully or not.
    SetupDone(bool),
    /// The spawn of the target program finished, successfully or not.
    SpawnDone(bool),
    /// The process-wide interrupt fired while the child ran.
    Interrupt,
    /// The child was reaped, with its exit code if it exited normally.
    ChildExit(Option<u32>),
    /// The exit code was written on the Command Channel.
    Report,
}

/// Whether a conforming driver may feed `e` in state `m`.  In particular a
/// report is allowed only once the child has fully exited, and nothing
/// follows a report or a failure.
pub open spec fn handler_event_allowed(m: HandlerModel, e: HandlerEvent) -> bool {
    match e {
        HandlerEvent::SetupDone(_) => m.phase is Setup,
        HandlerEvent::SpawnDone(_) => m.phase is Spawning,
        HandlerEvent::Interrupt => m.phase is Running,
        HandlerEvent::ChildExit(_) => m.phase is Running,
        HandlerEvent::Report => m.phase is Exited,
    }
}

/// The state after one event.
pub open spec fn handler_step(m: HandlerModel, e: HandlerEvent) -> HandlerModel {
    match e {
        HandlerEvent::SetupDone(ok) => (HandlerModel {
            phase: if ok {
                HandlerPhase::Spawning
            } else {
                HandlerPhase::Failed(HandlerError::SetupFailed)
            },
            interrupted: m.interrupted,
        }),
        HandlerEvent::SpawnDone(ok) => (HandlerModel {
            phase: if ok {
                HandlerPhase::Running
            } else {
                HandlerPhase::Failed(HandlerError::SpawnFailed)
            },
            interrupted: m.interrupted,
        }),
        HandlerEvent::Interrupt => (HandlerModel { phase: m.phase, interrupted: true }),
        HandlerEvent::ChildExit(code) => (HandlerModel {
            phase: match code {
                Some(c) => HandlerPhase::Exited(c),
                None => HandlerPhase::Failed(HandlerError::MissingExitCode),
            },
            interrupted: m.interrupted,
        }),
        HandlerEvent::Report => (HandlerModel {
            phase: match m.phase {
                HandlerPhase::Exited(c) => HandlerPhase::Reported(c),
                _ => m.phase,
            },
            interrupted: m.interrupted,
        }),
    }
}

/// Whether a whole trace of events conforms to the driver discipline.
pub open spec fn handler_trace_allowed(m: HandlerModel, es: Seq<HandlerEvent>) -> bool
    decreases es.len(),
{
    es.len() == 0 || (handler_event_allowed(m, es[0]) && handler_trace_allowed(
        handler_step(m, es[0]),
        es.drop_first(),
    ))
}

/// The state after a whole trace of events.
pub open spec fn handler_run(m: HandlerModel, es: Seq<HandlerEvent>) -> HandlerModel
    decreases es.len(),
{
    if es.len() == 0 {
        m
    } else {
        handler_run(handler_step(m, es[0]), es.drop_first())
    }
}

/// How many times a trace writes the exit code on the Command Channel.
pub open spec fn count_reports(es: Seq<HandlerEvent>) -> nat
    decreases es.len(),
{
    if es.len() == 0 {
        0
    } else {
        (if es[0] is Report {
            1 as nat
        } else {
            0 as nat
        }) + count_reports(es.drop_first())
    }
}

/// How many reports a handler in phase `p` may still make.
pub open spec fn report_budget(p: HandlerPhase) -> nat {
    match p {
        HandlerPhase::Reported(_) => 0,
        HandlerPhase::Failed(_) => 0,
        _ => 1,
    }
}

/// The Command Channel's result direction is written at most once per
/// invocation, and (by `handler_event_allowed`) only from the phase the
/// child's fully observed exit reaches: no conforming run reports an exit
/// code twice, nor before the child has exited, nor after a failure.
pub proof fn lemma_report_at_most_once(m: HandlerModel, es: Seq<HandlerEvent>)
    requires
        handler_trace_allowed(m, es),
    ensures
        count_reports(es) <= report_budget(m.phase),
    decreases es.len(),
{
    if es.len() > 0 {
        let m1 = handler_step(m, es[0]);
        lemma_report_at_most_once(m1, es.drop_first());
    }
}

/// A failed invocation never reports an exit code: every conforming
/// continuation from a failure reports nothing and stays failed.
pub proof fn lemma_failure_is_terminal(m: HandlerModel, es: Seq<HandlerEvent>)
    requires
        m.phase is Failed,
        handler_trace_allowed(m, es),
    ensures
        es.len() == 0,
        count_reports(es) == 0,
{
    if es.len() > 0 {
        assert(!handler_event_allowed(m, es[0]));
    }
}

/// From the child's observed exit, the only conforming continuations are to
/// report that same code, once, or to report nothing.
pub proof fn lemma_exited_reports_childs_code(m: HandlerModel, es: Seq<HandlerEvent>)
    requires
        m.phase is Exited,
        handler_trace_allowed(m, es),
    ensures
        handler_run(m, es).phase is Reported ==> handler_run(m, es).phase
            == HandlerPhase::Reported(m.phase->Exited_0),
{
    if es.len() > 0 {
        assert(handler_event_allowed(m, es[0]));
        assert(es[0] is Report);
        let m1 = handler_step(m, es[0]);
        let rest = es.drop_first();
        assert(m1.phase == HandlerPhase::Reported(m.phase->Exited_0));
        assert(handler_trace_allowed(m1, rest));
        if rest.len() > 0 {
            assert(!handler_event_allowed(m1, rest[0]));
        }
        assert(rest.len() == 0);
        assert(handler_run(m, es) == handler_run(m1, rest));
        assert(handler_run(m1, rest) == m1);
    }
}

/// Exit reporting is faithful: a conforming run that ends with a reported
/// exit code observed the child exit with exactly that code.
pub proof fn lemma_reported_code_is_childs(m: HandlerModel, es: Seq<HandlerEvent>)
    requires
        handler_trace_allowed(m, es),
        !(m.phase is Exited),
        !(m.phase is Reported),
        handler_run(m, es).phase is Reported,
    ensures
        exists|i: int|
            0 <= i < es.len() && es[i] == HandlerEvent::ChildExit(
                Some(handler_run(m, es).phase->Reported_0),
            ),
    decreases es.len(),
{
    let m1 = handler_step(m, es[0]);
    let rest = es.drop_first();
    let code = handler_run(m, es).phase->Reported_0;
    if es[0] matches HandlerEvent::ChildExit(r) && r matches Some(c) {
        lemma_exited_reports_childs_code(m1, rest);
        assert(es[0] == HandlerEvent::ChildExit(Some(code)));
    } else {
        lemma_reported_code_is_childs(m1, rest);
        let j = choose|j: int|
            0 <= j < rest.len() && rest[j] == HandlerEvent::ChildExit(
                Some(handler_run(m1, rest).phase->Reported_0),
            );
        assert(es[j + 1] == HandlerEvent::ChildExit(Some(code)));
    }
}

/// Decision core of one server-side invocation.  Its model
/// ([`HandlerModel`], reached by `@`) evolves in lock step with
/// [`handler_step`], so the laws above hold of every run of this machine.
pub struct ServerHandler {
    phase: HandlerPhase,
    interrupted: bool,
}

impl View for ServerHandler {
    type V = HandlerModel;

    closed spec fn view(&self) -> HandlerModel {
        HandlerModel { phase: self.phase, interrupted: self.interrupted }
    }
}

impl ServerHandler {
    /// A handler for one freshly accepted connection: in setup, with no
    /// interrupt observed.
    pub fn new() -> (h: ServerHandler)
        ensures
            h@.phase is Setup,
            !h@.interrupted,
    {
        ServerHandler { phase: HandlerPhase::Setup, interrupted: false }
    }

    /// The all-or-nothing setup join finished: on success the decoded child
    /// command is ready to spawn; on failure the invocation is over and
    /// nothing is ever written on the wire.
    pub fn on_setup_done(&mut self, ok: bool)
        requires
            old(self)@.phase is Setup,
        ensures
            final(self)@ == handler_step(old(self)@, HandlerEvent::SetupDone(ok)),
    {
        self.phase = if ok {
            HandlerPhase::Spawning
        } else {
            HandlerPhase::Failed(HandlerError::SetupFailed)
        };
    }

    /// The spawn finished: on success the child runs and the three pipe
    /// tasks are started; a spawn failure fails this invocation only.
    pub fn on_spawn_done(&mut self, ok: bool)
        requires
            old(self)@.phase is Spawning,
        ensures
            final(self)@ == handler_step(old(self)@, HandlerEvent::SpawnDone(ok)),
    {
        self.phase = if ok {
            HandlerPhase::Running
        } else {
            HandlerPhase::Failed(HandlerError::SpawnFailed)
        };
    }

    /// The process-wide interrupt fired while the child ran: the child is
    /// killed, and the handler still awaits its (now forced) exit so an
    /// exit code is always obtainable.  Returns that the child must be
    /// killed now.
    pub fn on_interrupt(&mut self) -> (kill: bool)
        requires
            old(self)@.phase is Running,
        ensures
            final(self)@ == handler_step(old(self)@, HandlerEvent::Interrupt),
            kill,
    {
        self.interrupted = true;
        true
    }

    /// The child was reaped.  With an exit code the handler moves on to
    /// reporting it; without one (killed by a signal) the invocation fails
    /// and nothing is written on the wire.
    pub fn on_child_exit(&mut self, code: Option<u32>)
        requires
            old(self)@.phase is Running,
        ensures
            final(self)@ == handler_step(old(self)@, HandlerEvent::ChildExit(code)),
    {
        self.phase = match code {
            Some(c) => HandlerPhase::Exited(c),
            None => HandlerPhase::Failed(HandlerError::MissingExitCode),
        };
    }

    /// Write the exit code on the Command Channel: yields the four wire
    /// bytes that encode the child's code.  Allowed only once the child has
    /// fully exited, and never twice — afterwards the handler only cancels
    /// and joins its pipe tasks.
    pub fn report_exit(&mut self) -> (bytes: Vec<u8>)
        requires
            old(self)@.phase is Exited,
        ensures
            final(self)@ == handler_step(old(self)@, HandlerEvent::Report),
            bytes@ == exit_code_bytes(old(self)@.phase->Exited_0),
    {
        let code: u32 = match self.phase {
            HandlerPhase::Exited(c) => c,
            _ => 0,
        };
        self.phase = HandlerPhase::Reported(code);
        encode_exit_code(code)
    }

    /// The child's exit code, once it has exited or was reported.
    pub fn exit_code(&self) -> (r: Option<u32>)
        ensures
            match r {
                Some(c) => self@.phase == HandlerPhase::Exited(c) || self@.phase
                    == HandlerPhase::Reported(c),
                None => !(self@.phase is Exited) && !(self@.phase is Reported),
            },
    {
        match self.phase {
            HandlerPhase::Exited(c) => Some(c),
            HandlerPhase::Reported(c) => Some(c),
            _ => None,
        }
    }

    /// Why this invocation failed, if it did.
    pub fn failure(&self) -> (r: Option<HandlerError>)
        ensures
            match r {
                Some(e) => self@.phase == HandlerPhase::Failed(e),
                None => !(self@.phase is Failed),
            },
    {
        match self.phase {
            HandlerPhase::Failed(e) => Some(e),
            _ => None,
        }
    }

    /// Whether the process-wide interrupt was observed while the child ran.
    pub fn interrupted(&self) -> (r: bool)
        ensures
            r == self@.interrupted,
    {
        self.interrupted
    }
}

} // verus!
