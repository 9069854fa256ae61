//! Core logic of a minimal remote-execution protocol: one client invokes one
//! program on a server and interacts with it over a single multiplexed
//! connection.  This crate holds the verified parts: the duplex pipe engine's
//! decision logic, the exit-code codec, the session-protocol ordering model,
//! the all-or-nothing join, the server handler's state machine, and the
//! shutdown coordinator.  The async transport and process plumbing around
//! them lives outside the library.
use vstd::prelude::*;

pub mod client;
pub mod command;
pub mod exit_code;
pub mod handler;
pub mod join;
pub mod pipe;
pub mod session;
pub mod shutdown;

verus! {

/// Well-known port shared by client and server when none is configured.
pub const DEFAULT_PORT: u16 = 4433;

} // verus!
