//! Decision core of the duplex pipe engine.
//!
//! A pipe task forwards bytes from one readable endpoint to one writable
//! endpoint, racing each read against a shared cancellation signal.  The
//! surrounding task performs the actual reads, writes and closes; the
//! [`PipeTask`] machine here decides, from its phase and each observed event,
//! what happens next, and its model records every byte handed to the sink, in
//! order.  A driver feeds events in this discipline: after a successful read
//! and write-through of a chunk it calls [`PipeTask::on_chunk`]; on
//! end-of-stream, [`PipeTask::on_eof`]; when the cancellation signal fires,
//! [`PipeTask::on_cancel`], and, if that asks for the final drain, one
//! read-to-end followed by [`PipeTask::on_drained`].  Once the machine is
//! done the driver closes the source, then the sink.
use vstd::prelude::*;

verus! {

/// How many bytes a pipe task reads at a time: deliberately tiny, favoring
/// latency and interactivity over throughput.
pub const PIPE_CHUNK_SIZE: usize = 8;

/// What a pipe task does with bytes still available on its source when the
/// shared cancellation signal fires.
#[derive(PartialEq, Eq, Structural, Clone, Copy, Debug)]
pub enum CancellationPolicy {
    /// Stop at once and drop anything not yet copied (the stdin direction:
    /// once the command has exited, further keystrokes are pointless).
    DiscardInput,
    /// Perform one final read-to-end of the source and flush it to the sink
    /// before closing (the stdout and stderr directions: the operator must
    /// see the last bytes the process produced).
    ReadToEnd,
}

/// Where a pipe task stands in its life cycle.
#[derive(PartialEq, Eq, Structural, Clone, Copy, Debug)]
pub enum PipePhase {
    /// Forwarding chunks, racing each read against the cancellation signal.
    Copying,
    /// Cancelled under `ReadToEnd`: one final read-to-end is outstanding.
    Draining,
    /// The loop is over; the source and then the sink are to be closed.
    Done,
}

/// Spec-level image of a pipe task: its policy, phase, whether the
/// cancellation signal has been observed, and every byte handed to the sink
/// so far, in order.
#[verifier::ext_equal]
pub struct PipeModel {
    pub policy: CancellationPolicy,
    pub phase: PipePhase,
    pub cancelled: bool,
    pub delivered: Seq<u8>,
}

/// One event a running pipe task observes.
pub enum PipeEvent {
    /// A read completed with this chunk, which was written through to the
    /// sink in full.
    Chunk(Seq<u8>),
    /// The source reported end-of-stream.
    Eof,
    /// The shared cancellation signal fired.
    Cancel,
    /// The final read-to-end completed with these remaining bytes, which
    /// were written through to the sink in full.
    Drained(Seq<u8>),
}

/// Whether a conforming driver may feed `e` to a task in state `m`.
pub open spec fn event_allowed(m: PipeModel, e: PipeEvent) -> bool {
    match e {
        PipeEvent::Chunk(_) => m.phase == PipePhase::Copying,
        PipeEvent::Eof => m.phase == PipePhase::Copying,
        PipeEvent::Cancel => m.phase == PipePhase::Copying,
        PipeEvent::Drained(_) => m.phase == PipePhase::Draining,
    }
}

/// The state after one event.
pub open spec fn step(m: PipeModel, e: PipeEvent) -> PipeModel {
    match e {
        PipeEvent::Chunk(b) => (PipeModel {
            policy: m.policy,
            phase: m.phase,
            cancelled: m.cancelled,
            delivered: m.delivered + b,
        }),
        PipeEvent::Eof => (PipeModel {
            policy: m.policy,
            phase: PipePhase::Done,
            cancelled: m.cancelled,
            delivered: m.delivered,
        }),
        PipeEvent::Cancel => (PipeModel {
            policy: m.policy,
            phase: if m.policy == CancellationPolicy::ReadToEnd {
                PipePhase::Draining
            } else {
                PipePhase::Done
            },
            cancelled: true,
            delivered: m.delivered,
        }),
        PipeEvent::Drained(b) => (PipeModel {
            policy: m.policy,
            phase: PipePhase::Done,
            cancelled: m.cancelled,
            delivered: m.delivered + b,
        }),
    }
}

/// The state after a whole trace of events.
pub open spec fn run(m: PipeModel, es: Seq<PipeEvent>) -> PipeModel
    decreases es.len(),
{
    if es.len() == 0 {
        m
    } else {
        run(step(m, es[0]), es.drop_first())
    }
}

/// Whether a whole trace of events conforms to the driver discipline.
pub open spec fn trace_allowed(m: PipeModel, es: Seq<PipeEvent>) -> bool
    decreases es.len(),
{
    es.len() == 0 || (event_allowed(m, es[0]) && trace_allowed(step(m, es[0]), es.drop_first()))
}

/// The trace that forwards `chunks` one by one.
pub open spec fn chunk_events(chunks: Seq<Seq<u8>>) -> Seq<PipeEvent> {
    chunks.map_values(|b: Seq<u8>| PipeEvent::Chunk(b))
}

/// Order and content preservation: however a byte stream is chunked,
/// forwarding the chunks one at a time while copying is allowed and delivers
/// exactly their concatenation, in order, appended to what was already
/// delivered.
pub proof fn lemma_pipe_preserves_stream(m: PipeModel, chunks: Seq<Seq<u8>>)
    requires
        m.phase == PipePhase::Copying,
    ensures
        trace_allowed(m, chunk_events(chunks)),
        run(m, chunk_events(chunks)).delivered == m.delivered + chunks.flatten(),
        run(m, chunk_events(chunks)).phase == PipePhase::Copying,
        run(m, chunk_events(chunks)).policy == m.policy,
        run(m, chunk_events(chunks)).cancelled == m.cancelled,
    decreases chunks.len(),
{
    if chunks.len() == 0 {
        assert(chunk_events(chunks).len() == 0);
        assert(m.delivered + chunks.flatten() =~= m.delivered);
    } else {
        let m1 = step(m, PipeEvent::Chunk(chunks[0]));
        lemma_pipe_preserves_stream(m1, chunks.drop_first());
        assert(chunk_events(chunks).drop_first() =~= chunk_events(chunks.drop_first()));
        assert(m1.delivered + chunks.drop_first().flatten() =~= m.delivered + chunks.flatten());
    }
}

/// `DiscardInput`: once the cancellation signal has been observed, no
/// further bytes are ever delivered, whatever may still be available on the
/// source — every conforming continuation leaves the delivered stream
/// exactly as it was when the signal fired.
pub proof fn lemma_discard_on_cancel(m: PipeModel, es: Seq<PipeEvent>)
    requires
        m.policy == CancellationPolicy::DiscardInput,
        m.phase == PipePhase::Copying,
        trace_allowed(step(m, PipeEvent::Cancel), es),
    ensures
        es.len() == 0,
        run(step(m, PipeEvent::Cancel), es).delivered == m.delivered,
{
    let m1 = step(m, PipeEvent::Cancel);
    assert(m1.phase == PipePhase::Done);
    if es.len() > 0 {
        assert(!event_allowed(m1, es[0]));
    }
}

/// `ReadToEnd`: after the cancellation signal fires, the bytes still
/// available on the source up to end-of-stream are all delivered before the
/// task closes — the final drain is allowed and appends exactly those bytes.
pub proof fn lemma_drain_on_cancel(m: PipeModel, rest: Seq<u8>)
    requires
        m.policy == CancellationPolicy::ReadToEnd,
        m.phase == PipePhase::Copying,
    ensures
        trace_allowed(m, seq![PipeEvent::Cancel, PipeEvent::Drained(rest)]),
        run(m, seq![PipeEvent::Cancel, PipeEvent::Drained(rest)]).delivered == m.delivered + rest,
        run(m, seq![PipeEvent::Cancel, PipeEvent::Drained(rest)]).phase == PipePhase::Done,
{
    reveal_with_fuel(run, 3);
    reveal_with_fuel(trace_allowed, 3);
    let es = seq![PipeEvent::Cancel, PipeEvent::Drained(rest)];
    let m1 = step(m, PipeEvent::Cancel);
    let m2 = step(m1, PipeEvent::Drained(rest));
    assert(es.drop_first() =~= seq![PipeEvent::Drained(rest)]);
    assert(es.drop_first().drop_first() =~= Seq::<PipeEvent>::empty());
    assert(run(m, es) == m2);
}

/// `ReadToEnd`: the final drain is also the last thing the task does — a
/// conforming continuation after the signal holds at most one more event,
/// and that event is the drain.
pub proof fn lemma_drain_is_final(m: PipeModel, es: Seq<PipeEvent>)
    requires
        m.policy == CancellationPolicy::ReadToEnd,
        m.phase == PipePhase::Copying,
        trace_allowed(step(m, PipeEvent::Cancel), es),
    ensures
        es.len() <= 1,
        es.len() == 1 ==> es[0] matches PipeEvent::Drained(_),
{
    reveal_with_fuel(trace_allowed, 3);
    let m1 = step(m, PipeEvent::Cancel);
    assert(m1.phase == PipePhase::Draining);
    if es.len() > 0 {
        let m2 = step(m1, es[0]);
        assert(m2.phase == PipePhase::Done);
        if es.drop_first().len() > 0 {
            assert(!event_allowed(m2, es.drop_first()[0]));
        }
    }
}

/// Running a trace in two parts equals running their concatenation.
pub proof fn lemma_run_append(m: PipeModel, es1: Seq<PipeEvent>, es2: Seq<PipeEvent>)
    ensures
        run(m, es1 + es2) == run(run(m, es1), es2),
    decreases es1.len(),
{
    if es1.len() == 0 {
        assert(es1 + es2 =~= es2);
    } else {
        assert((es1 + es2)[0] == es1[0]);
        assert((es1 + es2).drop_first() =~= es1.drop_first() + es2);
        lemma_run_append(step(m, es1[0]), es1.drop_first(), es2);
    }
}

/// A trace whose parts are allowed in sequence is allowed as a whole.
pub proof fn lemma_trace_allowed_append(m: PipeModel, es1: Seq<PipeEvent>, es2: Seq<PipeEvent>)
    requires
        trace_allowed(m, es1),
        trace_allowed(run(m, es1), es2),
    ensures
        trace_allowed(m, es1 + es2),
    decreases es1.len(),
{
    if es1.len() == 0 {
        assert(es1 + es2 =~= es2);
    } else {
        assert((es1 + es2)[0] == es1[0]);
        assert((es1 + es2).drop_first() =~= es1.drop_first() + es2);
        lemma_trace_allowed_append(step(m, es1[0]), es1.drop_first(), es2);
    }
}

/// A full `ReadToEnd` life cycle: forward any chunking of the stream,
/// observe the cancellation signal, drain the remainder — the sink has then
/// received exactly the stream followed by the remainder, in order, and the
/// endpoints are to be closed.
pub proof fn lemma_lifecycle_read_to_end(m: PipeModel, chunks: Seq<Seq<u8>>, rest: Seq<u8>)
    requires
        m.policy == CancellationPolicy::ReadToEnd,
        m.phase == PipePhase::Copying,
    ensures
        ({
            let es = chunk_events(chunks) + seq![PipeEvent::Cancel, PipeEvent::Drained(rest)];
            &&& trace_allowed(m, es)
            &&& run(m, es).delivered == m.delivered + chunks.flatten() + rest
            &&& run(m, es).phase == PipePhase::Done
        }),
{
    let copied = chunk_events(chunks);
    let tail = seq![PipeEvent::Cancel, PipeEvent::Drained(rest)];
    lemma_pipe_preserves_stream(m, chunks);
    let m1 = run(m, copied);
    lemma_drain_on_cancel(m1, rest);
    lemma_run_append(m, copied, tail);
    lemma_trace_allowed_append(m, copied, tail);
}

/// A full `DiscardInput` life cycle: forward any chunking of the stream,
/// observe the cancellation signal — the sink has then received exactly the
/// stream, nothing more ever follows, and the endpoints are to be closed.
pub proof fn lemma_lifecycle_discard(m: PipeModel, chunks: Seq<Seq<u8>>)
    requires
        m.policy == CancellationPolicy::DiscardInput,
        m.phase == PipePhase::Copying,
    ensures
        ({
            let es = chunk_events(chunks) + seq![PipeEvent::Cancel];
            &&& trace_allowed(m, es)
            &&& run(m, es).delivered == m.delivered + chunks.flatten()
            &&& run(m, es).phase == PipePhase::Done
        }),
{
    let copied = chunk_events(chunks);
    let tail = seq![PipeEvent::Cancel];
    lemma_pipe_preserves_stream(m, chunks);
    let m1 = run(m, copied);
    reveal_with_fuel(run, 2);
    reveal_with_fuel(trace_allowed, 2);
    assert(tail.drop_first() =~= Seq::<PipeEvent>::empty());
    lemma_run_append(m, copied, tail);
    lemma_trace_allowed_append(m, copied, tail);
}

/// Cancellation is irreversible: no event clears an observed signal.
pub proof fn lemma_cancel_irreversible(m: PipeModel, es: Seq<PipeEvent>)
    requires
        m.cancelled,
    ensures
        run(m, es).cancelled,
    decreases es.len(),
{
    if es.len() > 0 {
        lemma_cancel_irreversible(step(m, es[0]), es.drop_first());
    }
}

/// Decision core of one pipe task.  Its model ([`PipeModel`], reached by
/// `@`) evolves in lock step with the spec transition [`step`], so the laws
/// above hold of every run of this machine.
pub struct PipeTask {
    policy: CancellationPolicy,
    phase: PipePhase,
    cancelled: bool,
    delivered: Ghost<Seq<u8>>,
}

impl View for PipeTask {
    type V = PipeModel;

    closed spec fn view(&self) -> PipeModel {
        PipeModel {
            policy: self.policy,
            phase: self.phase,
            cancelled: self.cancelled,
            delivered: self.delivered@,
        }
    }
}

impl PipeTask {
    /// Start a pipe task under `policy`: copying, signal not observed,
    /// nothing delivered yet.
    pub fn new(policy: CancellationPolicy) -> (t: PipeTask)
        ensures
            t@.policy == policy,
            t@.phase == PipePhase::Copying,
            !t@.cancelled,
            t@.delivered == Seq::<u8>::empty(),
    {
        PipeTask { policy, phase: PipePhase::Copying, cancelled: false, delivered: Ghost(Seq::empty()) }
    }

    /// A read completed with `chunk` while copying and the chunk was written
    /// to the sink in full: the delivered stream grows by exactly those
    /// bytes and the loop goes on.
    pub fn on_chunk(&mut self, chunk: &Vec<u8>)
        requires
            old(self)@.phase == PipePhase::Copying,
        ensures
            final(self)@ == step(old(self)@, PipeEvent::Chunk(chunk@)),
    {
        self.delivered = Ghost(self.delivered@ + chunk@);
        proof {
            assert(self@ =~= step(old(self)@, PipeEvent::Chunk(chunk@)));
        }
    }

    /// The source reported end-of-stream while copying: the loop is over and
    /// the endpoints are to be closed; nothing more is delivered.
    pub fn on_eof(&mut self)
        requires
            old(self)@.phase == PipePhase::Copying,
        ensures
            final(self)@ == step(old(self)@, PipeEvent::Eof),
    {
        self.phase = PipePhase::Done;
        proof {
            assert(self@ =~= step(old(self)@, PipeEvent::Eof));
        }
    }

    /// The cancellation signal fired while copying.  Returns whether the
    /// final read-to-end is owed: exactly under `ReadToEnd`.  Under
    /// `DiscardInput` the task stops at once and nothing more is delivered.
    pub fn on_cancel(&mut self) -> (drain: bool)
        requires
            old(self)@.phase == PipePhase::Copying,
        ensures
            final(self)@ == step(old(self)@, PipeEvent::Cancel),
            drain == (old(self)@.policy == CancellationPolicy::ReadToEnd),
    {
        self.cancelled = true;
        let drain = self.policy == CancellationPolicy::ReadToEnd;
        self.phase = if drain {
            PipePhase::Draining
        } else {
            PipePhase::Done
        };
        proof {
            assert(self@ =~= step(old(self)@, PipeEvent::Cancel));
        }
        drain
    }

    /// The final read-to-end completed with `rest` and those bytes were
    /// written to the sink in full: they are the last bytes delivered, and
    /// the endpoints are to be closed.
    pub fn on_drained(&mut self, rest: &Vec<u8>)
        requires
            old(self)@.phase == PipePhase::Draining,
        ensures
            final(self)@ == step(old(self)@, PipeEvent::Drained(rest@)),
    {
        self.phase = PipePhase::Done;
        self.delivered = Ghost(self.delivered@ + rest@);
        proof {
            assert(self@ =~= step(old(self)@, PipeEvent::Drained(rest@)));
        }
    }

    /// Whether the loop is over, so that the driver closes the source and
    /// then the sink.
    pub fn is_done(&self) -> (r: bool)
        ensures
            r == (self@.phase == PipePhase::Done),
    {
        self.phase == PipePhase::Done
    }

    /// Forward a whole in-memory stream to a sink in chunks of
    /// [`PIPE_CHUNK_SIZE`], as the engine's loop does: the sink receives
    /// exactly the source, in order, and the task keeps copying.
    pub fn forward_all(&mut self, source: &Vec<u8>, sink: &mut Vec<u8>)
        requires
            old(self)@.phase == PipePhase::Copying,
        ensures
            final(self)@.phase == PipePhase::Copying,
            final(self)@.policy == old(self)@.policy,
            final(self)@.cancelled == old(self)@.cancelled,
            final(self)@.delivered == old(self)@.delivered + source@,
            final(sink)@ == old(sink)@ + source@,
    {
        let mut i: usize = 0;
        while i < source.len()
            invariant
                i <= source.len(),
                self@.phase == PipePhase::Copying,
                self@.policy == old(self)@.policy,
                self@.cancelled == old(self)@.cancelled,
                self@.delivered == old(self)@.delivered + source@.take(i as int),
                sink@ == old(sink)@ + source@.take(i as int),
            decreases source.len() - i,
        {
            let end = if source.len() - i < PIPE_CHUNK_SIZE {
                source.len()
            } else {
                i + PIPE_CHUNK_SIZE
            };
            let mut chunk: Vec<u8> = Vec::new();
            let mut j: usize = i;
            while j < end
                invariant
                    i <= j <= end <= source.len(),
                    chunk@ == source@.subrange(i as int, j as int),
                    sink@ == old(sink)@ + source@.take(j as int),
                    self@.phase == PipePhase::Copying,
                    self@.policy == old(self)@.policy,
                    self@.cancelled == old(self)@.cancelled,
                    self@.delivered == old(self)@.delivered + source@.take(i as int),
                decreases end - j,
            {
                let b = source[j];
                chunk.push(b);
                sink.push(b);
                proof {
                    assert(chunk@ =~= source@.subrange(i as int, j as int + 1));
                    assert(old(sink)@ + source@.take(j as int + 1) =~= (old(sink)@
                        + source@.take(j as int)).push(b));
                }
                j = j + 1;
            }
            self.on_chunk(&chunk);
            proof {
                assert(source@.take(i as int) + source@.subrange(i as int, end as int)
                    =~= source@.take(end as int));
            }
            i = end;
        }
        proof {
            assert(source@.take(source@.len() as int) =~= source@);
            assert(old(self)@.delivered + source@.take(source@.len() as int) =~= old(self)@.delivered
                + source@);
        }
    }

    /// Read back the drain policy.
    pub fn policy(&self) -> (p: CancellationPolicy)
        ensures
            p == self@.policy,
    {
        self.policy
    }
}

} // verus!
