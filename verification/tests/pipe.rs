use remote_do::pipe::CancellationPolicy;
use remote_do::pipe::PipeTask;

// Drive a pipe task the way its async loop does: each read chunk is written
// to the sink in full, then reported to the machine.
fn forward(sink: &mut Vec<u8>, task: &mut PipeTask, chunk: &[u8]) {
    let chunk: Vec<u8> = chunk.to_vec();
    sink.extend_from_slice(&chunk);
    task.on_chunk(&chunk);
}

#[test]
fn stream_preserved_in_order_chunked() {
    let mut task = PipeTask::new(CancellationPolicy::DiscardInput);
    let mut sink: Vec<u8> = Vec::new();
    forward(&mut sink, &mut task, b"he");
    forward(&mut sink, &mut task, b"llo wo");
    forward(&mut sink, &mut task, b"");
    forward(&mut sink, &mut task, b"rld");
    assert_eq!(sink, b"hello world".to_vec());
    assert!(!task.is_done());
    task.on_eof();
    assert!(task.is_done());
    assert_eq!(sink, b"hello world".to_vec());
}

#[test]
fn stream_preserved_unchunked() {
    let mut task = PipeTask::new(CancellationPolicy::ReadToEnd);
    let mut sink: Vec<u8> = Vec::new();
    forward(&mut sink, &mut task, b"hello world");
    assert_eq!(sink, b"hello world".to_vec());
}

#[test]
fn discard_on_cancel_stops_at_once() {
    let mut task = PipeTask::new(CancellationPolicy::DiscardInput);
    let mut sink: Vec<u8> = Vec::new();
    forward(&mut sink, &mut task, b"typed so far");
    let drain = task.on_cancel();
    // No final drain: bytes still available on the source are dropped.
    assert!(!drain);
    assert!(task.is_done());
    assert_eq!(sink, b"typed so far".to_vec());
}

#[test]
fn read_to_end_on_cancel_flushes_rest() {
    let mut task = PipeTask::new(CancellationPolicy::ReadToEnd);
    let mut sink: Vec<u8> = Vec::new();
    forward(&mut sink, &mut task, b"partial out");
    let drain = task.on_cancel();
    assert!(drain);
    assert!(!task.is_done());
    // The driver performs one final read-to-end and flushes it.
    let rest: Vec<u8> = b"put\n".to_vec();
    sink.extend_from_slice(&rest);
    task.on_drained(&rest);
    assert!(task.is_done());
    assert_eq!(sink, b"partial output\n".to_vec());
}

#[test]
fn forward_all_chunks_a_long_stream_intact() {
    let mut task = PipeTask::new(CancellationPolicy::ReadToEnd);
    let mut sink: Vec<u8> = b"already here: ".to_vec();
    let source: Vec<u8> = (0..=255u8).cycle().take(1000).collect();
    task.forward_all(&source, &mut sink);
    let mut expected: Vec<u8> = b"already here: ".to_vec();
    expected.extend_from_slice(&source);
    assert_eq!(sink, expected);
    assert!(!task.is_done());
}

#[test]
fn eof_ends_the_loop() {
    let mut task = PipeTask::new(CancellationPolicy::ReadToEnd);
    assert!(!task.is_done());
    task.on_eof();
    assert!(task.is_done());
}

#[test]
fn policy_is_kept() {
    let task = PipeTask::new(CancellationPolicy::ReadToEnd);
    assert_eq!(task.policy(), CancellationPolicy::ReadToEnd);
    let task = PipeTask::new(CancellationPolicy::DiscardInput);
    assert_eq!(task.policy(), CancellationPolicy::DiscardInput);
}
