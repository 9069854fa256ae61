//! Life cycle of one invocation on the client.
//!
//! The orchestrator connects, runs the session protocol as initiator (open
//! the Command Channel, then all-or-nothing: write the argument line and
//! finish it, open the Stdio Channel, accept the Stderr Channel), wires
//! three pipe tasks sharing one cancellation signal, and blocks on the
//! 4-byte exit code reply.  Only once that reply is received does it trigger
//! the cancellation signal, join the pipe tasks, and exit with the remote
//! code; a setup or transport failure aborts before the pipes start and is
//! reported to the operator instead.  The [`ClientOrchestrator`] machine
//! decides those steps; the async task around it performs the transport
//! calls.
use vstd::prelude::*;

use crate::exit_code::DecodeExitError;
use crate::exit_code::decode_exit_code;
use crate::exit_code::wire_value;

verus! {

/// Where one client invocation stands.
pub enum ClientPhase {
    /// Executing the session protocol as initiator.
    Setup,
    /// The three pipe tasks run; the exit code reply is awaited.
    Piping,
    /// The remote exit code arrived; the cancellation signal was triggered
    /// and the pipe tasks are joined (terminal).
    Finished(u8),
    /// The invocation could not be completed; reported to the operator,
    /// distinct from any remote exit code (terminal).
    Failed,
}

/// Decision core of one client invocation.
pub struct ClientOrchestrator {
    phase: ClientPhase,
}

impl View for ClientOrchestrator {
    type V = ClientPhase;

    closed spec fn view(&self) -> ClientPhase {
        self.phase
    }
}

impl ClientOrchestrator {
    /// A fresh invocation, about to run the session protocol.
    pub fn new() -> (c: ClientOrchestrator)
        ensures
            c@ is Setup,
    {
        ClientOrchestrator { phase: ClientPhase::Setup }
    }

    /// Connecting and the all-or-nothing setup join finished: on success the
    /// three pipe tasks start and the reply is awaited; on failure the
    /// invocation aborts before any pipe starts.
    pub fn on_setup_done(&mut self, ok: bool)
        requires
            old(self)@ is Setup,
        ensures
            final(self)@ == if ok {
                ClientPhase::Piping
            } else {
                ClientPhase::Failed
            },
    {
        self.phase = if ok {
            ClientPhase::Piping
        } else {
            ClientPhase::Failed
        };
    }

    /// The Command Channel reply arrived.  A well-formed reply (exactly four
    /// bytes whose value fits a process exit code) finishes the invocation
    /// with that code; anything else fails it.  Either way the cancellation
    /// signal is to be triggered now and the pipe tasks joined — never
    /// before the reply.
    pub fn on_reply(&mut self, bytes: &Vec<u8>) -> (cancel: bool)
        requires
            old(self)@ is Piping,
        ensures
            cancel,
            final(self)@ == if bytes@.len() == 4 && wire_value(bytes@) <= 255 {
                ClientPhase::Finished(wire_value(bytes@) as u8)
            } else {
                ClientPhase::Failed
            },
    {
        self.phase = match decode_exit_code(bytes) {
            Ok(code) => ClientPhase::Finished(code),
            Err(DecodeExitError::WrongLength) => ClientPhase::Failed,
            Err(DecodeExitError::OutOfRange) => ClientPhase::Failed,
        };
        true
    }

    /// The reply could not be read at all (transport failure): the
    /// invocation fails, and the pipe tasks are still cancelled and joined,
    /// never orphaned.
    pub fn on_reply_lost(&mut self) -> (cancel: bool)
        requires
            old(self)@ is Piping,
        ensures
            cancel,
            final(self)@ is Failed,
    {
        self.phase = ClientPhase::Failed;
        true
    }

    /// The remote exit code the client process exits with, once finished.
    /// A failed invocation has none: the operator sees a distinct failure
    /// status instead.
    pub fn exit_code(&self) -> (r: Option<u8>)
        ensures
            match r {
                Some(c) => self@ == ClientPhase::Finished(c),
                None => !(self@ is Finished),
            },
    {
        match self.phase {
            ClientPhase::Finished(c) => Some(c),
            _ => None,
        }
    }
}

} // verus!
