use remote_do::client::ClientOrchestrator;
use remote_do::command::encode_command;
use remote_do::command::parse_command;
use remote_do::handler::HandlerError;
use remote_do::handler::ServerHandler;
use remote_do::pipe::CancellationPolicy;
use remote_do::pipe::PipeTask;

fn args(words: &[&str]) -> Vec<String> {
    words.iter().map(|w| w.to_string()).collect()
}

// Client invokes `echo hello`; the server spawns it, the stdout pipe
// delivers `hello\n`, the Command Channel reply carries exit code 0, and the
// client finishes with exit code 0.
#[test]
fn echo_hello_end_to_end() {
    // Initiator: encode the argument line and finish setup.
    let mut client = ClientOrchestrator::new();
    let payload = encode_command(&args(&["echo", "hello"]));
    client.on_setup_done(true);

    // Responder: decode the payload and construct the child command.
    let mut server = ServerHandler::new();
    let cmd = parse_command("run".to_string(), &payload).unwrap();
    assert_eq!(cmd.program, "run");
    assert_eq!(cmd.args, args(&["echo", "hello"]));
    server.on_setup_done(true);
    server.on_spawn_done(true);

    // The child's stdout crosses the stdout pipe, which drains on cancel.
    let mut stdout_pipe = PipeTask::new(CancellationPolicy::ReadToEnd);
    let mut client_stdout: Vec<u8> = Vec::new();
    let chunk: Vec<u8> = b"hello\n".to_vec();
    client_stdout.extend_from_slice(&chunk);
    stdout_pipe.on_chunk(&chunk);

    // The child exits with 0; the code is written once, after the exit.
    server.on_child_exit(Some(0));
    let reply = server.report_exit();
    assert!(!server.interrupted());
    assert_eq!(server.failure(), None);
    assert_eq!(server.exit_code(), Some(0));

    // The client receives the reply, cancels its pipes, and exits with 0.
    let cancel = client.on_reply(&reply);
    assert!(cancel);
    assert!(stdout_pipe.on_cancel());
    let rest: Vec<u8> = Vec::new();
    stdout_pipe.on_drained(&rest);
    assert!(stdout_pipe.is_done());
    assert_eq!(client_stdout, b"hello\n".to_vec());
    assert_eq!(client.exit_code(), Some(0));
}

// A missing or unspawnable target program fails that connection only: a
// second, independent invocation still succeeds.
#[test]
fn spawn_failure_is_confined_to_its_connection() {
    let mut failing = ServerHandler::new();
    failing.on_setup_done(true);
    failing.on_spawn_done(false);
    assert_eq!(failing.failure(), Some(HandlerError::SpawnFailed));
    assert_eq!(failing.exit_code(), None);

    let mut fresh = ServerHandler::new();
    fresh.on_setup_done(true);
    fresh.on_spawn_done(true);
    fresh.on_child_exit(Some(0));
    let reply = fresh.report_exit();
    assert_eq!(fresh.failure(), None);

    let mut client = ClientOrchestrator::new();
    client.on_setup_done(true);
    assert!(client.on_reply(&reply));
    assert_eq!(client.exit_code(), Some(0));
}

#[test]
fn interrupted_child_still_reports_its_forced_exit() {
    let mut server = ServerHandler::new();
    server.on_setup_done(true);
    server.on_spawn_done(true);
    // The process-wide interrupt fires: the child is killed, and its now
    // forced exit is still awaited so a code is always obtainable.
    let kill = server.on_interrupt();
    assert!(kill);
    server.on_child_exit(Some(137));
    let reply = server.report_exit();
    assert!(server.interrupted());
    assert_eq!(server.exit_code(), Some(137));

    let mut client = ClientOrchestrator::new();
    client.on_setup_done(true);
    client.on_reply(&reply);
    assert_eq!(client.exit_code(), Some(137));
}

#[test]
fn child_reaped_without_a_code_fails_the_invocation() {
    let mut server = ServerHandler::new();
    server.on_setup_done(true);
    server.on_spawn_done(true);
    server.on_child_exit(None);
    assert_eq!(server.failure(), Some(HandlerError::MissingExitCode));
    assert_eq!(server.exit_code(), None);
}

#[test]
fn setup_failure_aborts_before_pipes() {
    let mut server = ServerHandler::new();
    server.on_setup_done(false);
    assert_eq!(server.failure(), Some(HandlerError::SetupFailed));

    let mut client = ClientOrchestrator::new();
    client.on_setup_done(false);
    assert_eq!(client.exit_code(), None);
}

#[test]
fn malformed_reply_fails_the_client_invocation() {
    let mut client = ClientOrchestrator::new();
    client.on_setup_done(true);
    let reply: Vec<u8> = vec![0, 0, 1, 0];  // 256: not a process exit code
    assert!(client.on_reply(&reply));
    assert_eq!(client.exit_code(), None);
}
