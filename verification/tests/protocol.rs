use remote_do::join::try_join3;
use remote_do::session::ChannelKind;
use remote_do::session::Wire;
use remote_do::shutdown::Coordinator;
use remote_do::shutdown::CoordinatorState;

#[test]
fn accept_before_open_blocks_cleanly() {
    let mut wire = Wire::new();
    // The responder is early: nothing was opened yet, so the accept would
    // block; nothing is misrouted and nothing changes.
    assert_eq!(wire.accept_bidi(), None);
    assert_eq!(wire.accept_uni(), None);
    wire.open_bidi(ChannelKind::Command);
    assert_eq!(wire.accept_bidi(), Some(ChannelKind::Command));
    assert_eq!(wire.accept_bidi(), None);
}

#[test]
fn channels_pair_in_protocol_order() {
    let mut wire = Wire::new();
    wire.open_bidi(ChannelKind::Command);
    wire.open_bidi(ChannelKind::Stdio);
    wire.open_uni(ChannelKind::Stderr);
    assert_eq!(wire.accept_bidi(), Some(ChannelKind::Command));
    assert_eq!(wire.accept_bidi(), Some(ChannelKind::Stdio));
    assert_eq!(wire.accept_uni(), Some(ChannelKind::Stderr));
    assert_eq!(wire.accept_bidi(), None);
    assert_eq!(wire.accept_uni(), None);
}

#[test]
fn interleaved_concurrent_setup_still_pairs_correctly() {
    // The two peers' setup steps run concurrently; whatever the
    // interleaving, each accept pairs with the matching open.
    let mut wire = Wire::new();
    wire.open_bidi(ChannelKind::Command);
    assert_eq!(wire.accept_bidi(), Some(ChannelKind::Command));
    // Responder is ahead: its stdio accept and stderr open come before the
    // initiator's stdio open.
    assert_eq!(wire.accept_bidi(), None);
    wire.open_uni(ChannelKind::Stderr);
    wire.open_bidi(ChannelKind::Stdio);
    assert_eq!(wire.accept_uni(), Some(ChannelKind::Stderr));
    assert_eq!(wire.accept_bidi(), Some(ChannelKind::Stdio));
}

#[test]
fn join_yields_all_results_only_when_every_step_succeeds() {
    let r: Result<(u8, &str, bool), &str> = try_join3(Ok(7), Ok("stdio"), Ok(true));
    assert_eq!(r, Ok((7, "stdio", true)));
}

#[test]
fn join_aborts_with_the_earliest_error() {
    let r: Result<(u8, u8, u8), &str> = try_join3(Err("command"), Ok(2), Err("stderr"));
    assert_eq!(r, Err("command"));
    let r: Result<(u8, u8, u8), &str> = try_join3(Ok(1), Err("stdio"), Err("stderr"));
    assert_eq!(r, Err("stdio"));
    let r: Result<(u8, u8, u8), &str> = try_join3(Ok(1), Ok(2), Err("stderr"));
    assert_eq!(r, Err("stderr"));
}

#[test]
fn shutdown_escalates_in_two_stages() {
    let mut c = Coordinator::new();
    assert_eq!(c.state(), CoordinatorState::Accepting);
    // One long-lived invocation is running.
    assert!(c.try_accept());
    assert_eq!(c.active(), 1);

    // First interrupt: stop accepting, leave the invocation running.
    let kill = c.on_interrupt();
    assert!(!kill);
    assert_eq!(c.state(), CoordinatorState::Draining);
    assert_eq!(c.active(), 1);

    // A second connection attempt after the first interrupt is refused.
    assert!(!c.try_accept());
    assert_eq!(c.active(), 1);

    // Second interrupt while the handler still runs: propagate cancellation,
    // which kills the child process.
    let kill = c.on_interrupt();
    assert!(kill);
    assert_eq!(c.state(), CoordinatorState::Terminating);

    // The forced exit is still reaped and the handler joined.
    c.on_handler_finished();
    assert_eq!(c.state(), CoordinatorState::Stopped);
    assert_eq!(c.active(), 0);
}

#[test]
fn first_interrupt_with_no_handlers_stops_outright() {
    let mut c = Coordinator::new();
    let kill = c.on_interrupt();
    assert!(!kill);
    assert_eq!(c.state(), CoordinatorState::Stopped);
}

#[test]
fn draining_ends_when_the_last_handler_finishes() {
    let mut c = Coordinator::new();
    assert!(c.try_accept());
    assert!(c.try_accept());
    assert!(!c.on_interrupt());
    assert_eq!(c.state(), CoordinatorState::Draining);
    c.on_handler_finished();
    assert_eq!(c.state(), CoordinatorState::Draining);
    c.on_handler_finished();
    assert_eq!(c.state(), CoordinatorState::Stopped);
}
