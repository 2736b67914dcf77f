//! The stream echo worker.
//!
//! One worker owns one bidirectional stream exclusively. It repeatedly takes
//! the outcome of a blocking receive, answers with the action the I/O loop
//! must perform next (echo the chunk back, or stop), then takes the outcome
//! of the echoing send, and so on, until the peer closes its write side
//! (clean) or a receive or send fails (abrupt). No retry at any point: a
//! failed stream is reported and abandoned.

use vstd::prelude::*;

verus! {

/// What one blocking receive on the stream produced, as handed in by the
/// surrounding I/O loop.
#[derive(Debug, PartialEq, Eq)]
pub enum ReceiveOutcome {
    /// The peer sent a chunk of bytes.
    Chunk(Vec<u8>),
    /// The peer closed its write side: the expected, clean terminal state.
    EndOfStream,
    /// The receive itself failed.
    Failed,
}

/// What one blocking send on the stream produced.
#[derive(Clone, Copy, Debug, PartialEq, Eq)]
pub enum SendOutcome {
    Sent,
    Failed,
}

/// Why a worker stopped.
#[derive(Clone, Copy, Debug, PartialEq, Eq)]
pub enum Termination {
    /// The peer closed its write side: a clean exit, not an error.
    PeerClosed,
    /// A receive failed; the worker stops and reports it.
    ReceiveError,
    /// A send failed; the worker stops and reports it.
    SendError,
}

/// Where a worker stands between transport operations.
#[derive(Clone, Copy, Debug, PartialEq, Eq)]
pub enum Phase {
    /// Waiting for the outcome of the next receive.
    Receiving,
    /// A chunk was received and its echo was issued; waiting for the outcome
    /// of that send.
    Sending,
    /// The worker has stopped.
    Done(Termination),
}

/// What the I/O loop must do after handing in a receive outcome.
#[derive(Debug, PartialEq, Eq)]
pub enum ReceiveAction {
    /// Send exactly these bytes back on the same stream.
    Echo(Vec<u8>),
    /// Stop the loop and report the termination.
    Finish(Termination),
}

/// What the I/O loop must do after handing in a send outcome.
#[derive(Clone, Copy, Debug, PartialEq, Eq)]
pub enum SendAction {
    /// Go back to receiving.
    Continue,
    /// Stop the loop and report the termination.
    Finish(Termination),
}

/// One observable event in the life of a stream, at the model level.
pub enum StreamEvent {
    Received(Seq<u8>),
    PeerClosed,
    ReceiveFailed,
    SendSucceeded,
    SendFailed,
}

/// The mathematical state of one worker: its phase, the chunk whose echo is
/// in flight, and the chunks whose echoes completed, in order.
#[verifier::ext_equal]
pub struct WorkerModel {
    pub phase: Phase,
    pub pending: Seq<u8>,
    pub echoed: Seq<Seq<u8>>,
}

/// The state of a worker that has just taken ownership of a stream.
pub open spec fn worker_init() -> WorkerModel {
    WorkerModel { phase: Phase::Receiving, pending: Seq::empty(), echoed: Seq::empty() }
}

/// The worker's transition function. An event that cannot occur in the
/// current phase leaves the state unchanged.
pub open spec fn worker_step(m: WorkerModel, ev: StreamEvent) -> WorkerModel {
    match m.phase {
        Phase::Receiving => match ev {
            StreamEvent::Received(b) => WorkerModel {
                phase: Phase::Sending,
                pending: b,
                echoed: m.echoed,
            },
            StreamEvent::PeerClosed => WorkerModel {
                phase: Phase::Done(Termination::PeerClosed),
                pending: m.pending,
                echoed: m.echoed,
            },
            StreamEvent::ReceiveFailed => WorkerModel {
                phase: Phase::Done(Termination::ReceiveError),
                pending: m.pending,
                echoed: m.echoed,
            },
            _ => m,
        },
        Phase::Sending => match ev {
            StreamEvent::SendSucceeded => WorkerModel {
                phase: Phase::Receiving,
                pending: Seq::empty(),
                echoed: m.echoed.push(m.pending),
            },
            StreamEvent::SendFailed => WorkerModel {
                phase: Phase::Done(Termination::SendError),
                pending: m.pending,
                echoed: m.echoed,
            },
            _ => m,
        },
        Phase::Done(_) => m,
    }
}

/// The worker's state after a whole sequence of events.
pub open spec fn worker_run(m: WorkerModel, evs: Seq<StreamEvent>) -> WorkerModel
    decreases evs.len(),
{
    if evs.len() == 0 {
        m
    } else {
        worker_run(worker_step(m, evs[0]), evs.subrange(1, evs.len() as int))
    }
}

/// The model event carried by a receive outcome.
pub open spec fn receive_event(out: ReceiveOutcome) -> StreamEvent {
    match out {
        ReceiveOutcome::Chunk(v) => StreamEvent::Received(v@),
        ReceiveOutcome::EndOfStream => StreamEvent::PeerClosed,
        ReceiveOutcome::Failed => StreamEvent::ReceiveFailed,
    }
}

/// The model event carried by a send outcome.
pub open spec fn send_event(out: SendOutcome) -> StreamEvent {
    match out {
        SendOutcome::Sent => StreamEvent::SendSucceeded,
        SendOutcome::Failed => StreamEvent::SendFailed,
    }
}

/// The one action a worker in its receiving phase may answer to an event:
/// echo exactly the received bytes, or finish with the matching termination.
pub open spec fn receive_action_matches(ev: StreamEvent, act: ReceiveAction) -> bool {
    match (ev, act) {
        (StreamEvent::Received(b), ReceiveAction::Echo(v)) => v@ == b,
        (StreamEvent::PeerClosed, ReceiveAction::Finish(t)) => t == Termination::PeerClosed,
        (StreamEvent::ReceiveFailed, ReceiveAction::Finish(t)) => t == Termination::ReceiveError,
        _ => false,
    }
}

/// The one action a worker in its sending phase may answer to an event.
pub open spec fn send_action_matches(ev: StreamEvent, act: SendAction) -> bool {
    match (ev, act) {
        (StreamEvent::SendSucceeded, SendAction::Continue) => true,
        (StreamEvent::SendFailed, SendAction::Finish(t)) => t == Termination::SendError,
        _ => false,
    }
}

/// One stream's worker. It is the only owner of its stream; nothing here is
/// shared with workers of sibling streams.
pub struct EchoWorker {
    stream_id: u64,
    phase: Phase,
    pending: Ghost<Seq<u8>>,
    echoed: Ghost<Seq<Seq<u8>>>,
}

impl EchoWorker {
    /// The worker's mathematical state.
    pub closed spec fn model(self) -> WorkerModel {
        WorkerModel { phase: self.phase, pending: self.pending@, echoed: self.echoed@ }
    }

    /// The id of the owned stream, for attributing every handled message.
    pub closed spec fn id(self) -> u64 {
        self.stream_id
    }

    /// Take ownership of the stream with this id.
    pub fn new(stream_id: u64) -> (w: EchoWorker)
        ensures
            w.model() == worker_init(),
            w.id() == stream_id,
    {
        EchoWorker {
            stream_id,
            phase: Phase::Receiving,
            pending: Ghost(Seq::empty()),
            echoed: Ghost(Seq::empty()),
        }
    }

    pub fn phase(&self) -> (p: Phase)
        ensures
            p == self.model().phase,
    {
        self.phase
    }

    pub fn stream_id(&self) -> (id: u64)
        ensures
            id == self.id(),
    {
        self.stream_id
    }

    /// Hand in the outcome of one receive. On a chunk, the returned action
    /// carries exactly the received bytes, to be sent back on the same
    /// stream; on end of stream or a receive failure the worker stops.
    pub fn on_receive(&mut self, outcome: ReceiveOutcome) -> (act: ReceiveAction)
        requires
            old(self).model().phase == Phase::Receiving,
        ensures
            final(self).model() == worker_step(old(self).model(), receive_event(outcome)),
            final(self).id() == old(self).id(),
            receive_action_matches(receive_event(outcome), act),
    {
        match outcome {
            ReceiveOutcome::Chunk(bytes) => {
                self.phase = Phase::Sending;
                self.pending = Ghost(bytes@);
                ReceiveAction::Echo(bytes)
            }
            ReceiveOutcome::EndOfStream => {
                self.phase = Phase::Done(Termination::PeerClosed);
                ReceiveAction::Finish(Termination::PeerClosed)
            }
            ReceiveOutcome::Failed => {
                self.phase = Phase::Done(Termination::ReceiveError);
                ReceiveAction::Finish(Termination::ReceiveError)
            }
        }
    }

    /// Hand in the outcome of the send issued for the last received chunk.
    /// On success that chunk counts as echoed and the worker receives again;
    /// on failure the worker stops and the chunk does not count as echoed.
    pub fn on_send_result(&mut self, outcome: SendOutcome) -> (act: SendAction)
        requires
            old(self).model().phase == Phase::Sending,
        ensures
            final(self).model() == worker_step(old(self).model(), send_event(outcome)),
            final(self).id() == old(self).id(),
            send_action_matches(send_event(outcome), act),
    {
        match outcome {
            SendOutcome::Sent => {
                self.echoed = Ghost(self.echoed@.push(self.pending@));
                self.pending = Ghost(Seq::empty());
                self.phase = Phase::Receiving;
                SendAction::Continue
            }
            SendOutcome::Failed => {
                self.phase = Phase::Done(Termination::SendError);
                SendAction::Finish(Termination::SendError)
            }
        }
    }
}

/// Echo fidelity: one receive/send cycle issues exactly the received bytes
/// and, once the send succeeds, appends them unchanged to the completed
/// echoes; the worker is then ready for the next chunk.
pub proof fn lemma_echo_fidelity(m: WorkerModel, bytes: Seq<u8>)
    requires
        m.phase == Phase::Receiving,
    ensures
        worker_step(m, StreamEvent::Received(bytes)).phase == Phase::Sending,
        worker_step(m, StreamEvent::Received(bytes)).pending == bytes,
        worker_step(worker_step(m, StreamEvent::Received(bytes)), StreamEvent::SendSucceeded).phase
            == Phase::Receiving,
        worker_step(worker_step(m, StreamEvent::Received(bytes)), StreamEvent::SendSucceeded).echoed
            == m.echoed.push(bytes),
{
}

/// A failed send stops the worker with a send error and never counts the
/// chunk as echoed: an echo either completes whole or is reported as failed.
pub proof fn lemma_send_failure_reported(m: WorkerModel)
    requires
        m.phase == Phase::Sending,
    ensures
        worker_step(m, StreamEvent::SendFailed).phase == Phase::Done(Termination::SendError),
        worker_step(m, StreamEvent::SendFailed).echoed == m.echoed,
{
}

/// A stopped worker stays stopped: no event restarts it and nothing is
/// echoed after a termination — no retry at any level.
pub proof fn lemma_stopped_worker_stays_stopped(m: WorkerModel, evs: Seq<StreamEvent>)
    requires
        m.phase is Done,
    ensures
        worker_run(m, evs) == m,
    decreases evs.len(),
{
    if evs.len() > 0 {
        lemma_stopped_worker_stays_stopped(worker_step(m, evs[0]), evs.subrange(1, evs.len() as int));
    }
}

/// The echo log is append-only: whatever events follow, the chunks already
/// echoed stay echoed, in their order.
pub proof fn lemma_echo_log_append_only(m: WorkerModel, evs: Seq<StreamEvent>)
    ensures
        m.echoed.is_prefix_of(worker_run(m, evs).echoed),
    decreases evs.len(),
{
    if evs.len() == 0 {
        assert(m.echoed.is_prefix_of(m.echoed));
    } else {
        let next = worker_step(m, evs[0]);
        lemma_echo_log_append_only(next, evs.subrange(1, evs.len() as int));
        assert(m.echoed.is_prefix_of(next.echoed));
        assert(next.echoed.is_prefix_of(worker_run(m, evs).echoed));
    }
}

/// The events of the completed echo cycles for these chunks: each one
/// received, each echoing send succeeding, in order.
pub open spec fn echo_cycles(chunks: Seq<Seq<u8>>) -> Seq<StreamEvent>
    decreases chunks.len(),
{
    if chunks.len() == 0 {
        Seq::empty()
    } else {
        seq![StreamEvent::Received(chunks[0]), StreamEvent::SendSucceeded]
            + echo_cycles(chunks.subrange(1, chunks.len() as int))
    }
}

/// The events of a session in which the peer sends these chunks, every send
/// succeeds, and the peer then closes its write side.
pub open spec fn clean_session(chunks: Seq<Seq<u8>>) -> Seq<StreamEvent> {
    echo_cycles(chunks) + seq![StreamEvent::PeerClosed]
}

/// The events of a session that breaks on a send: the first chunks echo
/// whole, then one more is received and its echoing send fails.
pub open spec fn send_failing_session(done: Seq<Seq<u8>>, lost: Seq<u8>) -> Seq<StreamEvent> {
    echo_cycles(done) + seq![StreamEvent::Received(lost), StreamEvent::SendFailed]
}

/// The events of a session that breaks on a receive: the first chunks echo
/// whole, then the next receive fails.
pub open spec fn receive_failing_session(done: Seq<Seq<u8>>) -> Seq<StreamEvent> {
    echo_cycles(done) + seq![StreamEvent::ReceiveFailed]
}

/// Running a worker over concatenated event sequences is running it over
/// the first, then the second.
pub proof fn lemma_worker_run_append(m: WorkerModel, a: Seq<StreamEvent>, b: Seq<StreamEvent>)
    ensures
        worker_run(m, a + b) == worker_run(worker_run(m, a), b),
    decreases a.len(),
{
    if a.len() == 0 {
        assert(a + b =~= b);
    } else {
        assert((a + b)[0] == a[0]);
        assert((a + b).subrange(1, (a + b).len() as int)
            =~= a.subrange(1, a.len() as int) + b);
        lemma_worker_run_append(worker_step(m, a[0]), a.subrange(1, a.len() as int), b);
    }
}

/// After its completed echo cycles the worker has echoed exactly those
/// chunks, in order, and is ready to receive the next one.
pub proof fn lemma_echo_cycles(m: WorkerModel, chunks: Seq<Seq<u8>>)
    requires
        m.phase == Phase::Receiving,
    ensures
        worker_run(m, echo_cycles(chunks)).phase == Phase::Receiving,
        worker_run(m, echo_cycles(chunks)).echoed == m.echoed + chunks,
    decreases chunks.len(),
{
    if chunks.len() == 0 {
        assert(m.echoed + chunks =~= m.echoed);
    } else {
        let first = chunks[0];
        let rest = chunks.subrange(1, chunks.len() as int);
        let cycle = seq![StreamEvent::Received(first), StreamEvent::SendSucceeded];
        assert(echo_cycles(chunks) == cycle + echo_cycles(rest));
        lemma_worker_run_append(m, cycle, echo_cycles(rest));
        let received = worker_step(m, StreamEvent::Received(first));
        let answered = worker_step(received, StreamEvent::SendSucceeded);
        let tail = cycle.subrange(1, 2);
        assert(cycle[0] == StreamEvent::Received(first));
        assert(tail[0] == StreamEvent::SendSucceeded);
        assert(worker_run(m, cycle) == worker_run(received, tail));
        assert(tail.subrange(1, 1) =~= Seq::<StreamEvent>::empty());
        assert(worker_run(received, tail) == worker_run(answered, tail.subrange(1, 1)));
        assert(worker_run(answered, tail.subrange(1, 1)) == answered);
        let after_cycle = worker_run(m, cycle);
        assert(after_cycle.phase == Phase::Receiving);
        assert(after_cycle.echoed == m.echoed.push(first));
        lemma_echo_cycles(after_cycle, rest);
        assert(m.echoed.push(first) + rest =~= m.echoed + chunks);
    }
}

/// Clean shutdown: when the peer closes its write side after k chunks whose
/// sends all succeeded, the worker has echoed exactly those k chunks, in
/// order, and stops cleanly, not with an error.
pub proof fn lemma_clean_shutdown(m: WorkerModel, chunks: Seq<Seq<u8>>)
    requires
        m.phase == Phase::Receiving,
    ensures
        worker_run(m, clean_session(chunks)).phase == Phase::Done(Termination::PeerClosed),
        worker_run(m, clean_session(chunks)).echoed == m.echoed + chunks,
{
    lemma_echo_cycles(m, chunks);
    lemma_worker_run_append(m, echo_cycles(chunks), seq![StreamEvent::PeerClosed]);
    let ready = worker_run(m, echo_cycles(chunks));
    let closing = seq![StreamEvent::PeerClosed];
    assert(closing[0] == StreamEvent::PeerClosed);
    assert(closing.subrange(1, 1) =~= Seq::<StreamEvent>::empty());
    assert(worker_run(ready, closing)
        == worker_run(worker_step(ready, StreamEvent::PeerClosed), closing.subrange(1, 1)));
}

/// A break on a send, after any number of whole echoes: the worker stops
/// with the send error, having echoed exactly the chunks that completed —
/// the lost chunk is reported as failed, never silently half-echoed.
pub proof fn lemma_send_failure_mid_session(m: WorkerModel, done: Seq<Seq<u8>>, lost: Seq<u8>)
    requires
        m.phase == Phase::Receiving,
    ensures
        worker_run(m, send_failing_session(done, lost)).phase
            == Phase::Done(Termination::SendError),
        worker_run(m, send_failing_session(done, lost)).echoed == m.echoed + done,
{
    lemma_echo_cycles(m, done);
    let breaking = seq![StreamEvent::Received(lost), StreamEvent::SendFailed];
    lemma_worker_run_append(m, echo_cycles(done), breaking);
    let ready = worker_run(m, echo_cycles(done));
    let received = worker_step(ready, StreamEvent::Received(lost));
    let tail = breaking.subrange(1, 2);
    assert(breaking[0] == StreamEvent::Received(lost));
    assert(tail[0] == StreamEvent::SendFailed);
    assert(worker_run(ready, breaking) == worker_run(received, tail));
    assert(tail.subrange(1, 1) =~= Seq::<StreamEvent>::empty());
    assert(worker_run(received, tail)
        == worker_run(worker_step(received, StreamEvent::SendFailed), tail.subrange(1, 1)));
}

/// A break on a receive, after any number of whole echoes: the worker stops
/// with the receive error, having echoed exactly the chunks that completed.
pub proof fn lemma_receive_failure_mid_session(m: WorkerModel, done: Seq<Seq<u8>>)
    requires
        m.phase == Phase::Receiving,
    ensures
        worker_run(m, receive_failing_session(done)).phase
            == Phase::Done(Termination::ReceiveError),
        worker_run(m, receive_failing_session(done)).echoed == m.echoed + done,
{
    lemma_echo_cycles(m, done);
    lemma_worker_run_append(m, echo_cycles(done), seq![StreamEvent::ReceiveFailed]);
    let ready = worker_run(m, echo_cycles(done));
    let breaking = seq![StreamEvent::ReceiveFailed];
    assert(breaking[0] == StreamEvent::ReceiveFailed);
    assert(breaking.subrange(1, 1) =~= Seq::<StreamEvent>::empty());
    assert(worker_run(ready, breaking)
        == worker_run(worker_step(ready, StreamEvent::ReceiveFailed), breaking.subrange(1, 1)));
}

} // verus!
