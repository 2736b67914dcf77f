//! The per-connection stream acceptor.
//!
//! One acceptor owns one connection. It repeatedly takes the outcome of a
//! blocking accept of the next bidirectional stream and answers with the
//! action the I/O loop must perform next: spawn a detached worker for the
//! new stream and immediately accept again, or stop. Acceptance is never
//! serialized behind stream processing: spawning is fire-and-forget, and
//! the acceptor holds no worker state at all.

use vstd::prelude::*;

verus! {

/// What one blocking accept of a bidirectional stream produced.
#[derive(Clone, Copy, Debug, PartialEq, Eq)]
pub enum StreamAcceptOutcome {
    /// The peer opened a new stream with this id.
    Opened(u64),
    /// The connection ended cleanly: no more streams will arrive.
    NoMoreStreams,
    /// The accept itself failed; the connection is broken.
    Failed,
}

/// Where a stream acceptor stands between transport operations.
#[derive(Clone, Copy, Debug, PartialEq, Eq)]
pub enum AcceptorPhase {
    /// Waiting for the outcome of the next stream accept.
    Accepting,
    /// The connection ended cleanly.
    Closed,
    /// The connection broke; no retry, reconnection is the peer's affair.
    Errored,
}

/// What the I/O loop must do after handing in a stream accept outcome.
#[derive(Clone, Copy, Debug, PartialEq, Eq)]
pub enum StreamAcceptAction {
    /// Dispatch a detached worker for the stream with this id, then accept
    /// the next stream at once, without waiting on the worker.
    SpawnWorker(u64),
    /// Stop the loop and report normal closure of the connection.
    FinishClosed,
    /// Stop the loop and report the accept error.
    FinishErrored,
}

/// The mathematical state of one stream acceptor: its phase and the ids of
/// the streams it has admitted, in order of acceptance.
#[verifier::ext_equal]
pub struct AcceptorModel {
    pub phase: AcceptorPhase,
    pub admitted: Seq<u64>,
}

/// The state of an acceptor that has just taken ownership of a connection.
pub open spec fn acceptor_init() -> AcceptorModel {
    AcceptorModel { phase: AcceptorPhase::Accepting, admitted: Seq::empty() }
}

/// The acceptor's transition function. An outcome arriving after the
/// acceptor stopped leaves the state unchanged.
pub open spec fn acceptor_step(m: AcceptorModel, out: StreamAcceptOutcome) -> AcceptorModel {
    if m.phase == AcceptorPhase::Accepting {
        match out {
            StreamAcceptOutcome::Opened(id) => AcceptorModel {
                phase: AcceptorPhase::Accepting,
                admitted: m.admitted.push(id),
            },
            StreamAcceptOutcome::NoMoreStreams => AcceptorModel {
                phase: AcceptorPhase::Closed,
                admitted: m.admitted,
            },
            StreamAcceptOutcome::Failed => AcceptorModel {
                phase: AcceptorPhase::Errored,
                admitted: m.admitted,
            },
        }
    } else {
        m
    }
}

/// The acceptor's state after a whole sequence of accept outcomes.
pub open spec fn acceptor_run(m: AcceptorModel, outs: Seq<StreamAcceptOutcome>) -> AcceptorModel
    decreases outs.len(),
{
    if outs.len() == 0 {
        m
    } else {
        acceptor_run(acceptor_step(m, outs[0]), outs.subrange(1, outs.len() as int))
    }
}

/// The one action an accepting acceptor may answer to an outcome: spawn a
/// worker for exactly the admitted stream, or stop with the matching report.
pub open spec fn accept_action_matches(out: StreamAcceptOutcome, act: StreamAcceptAction) -> bool {
    match (out, act) {
        (StreamAcceptOutcome::Opened(id), StreamAcceptAction::SpawnWorker(wid)) => wid == id,
        (StreamAcceptOutcome::NoMoreStreams, StreamAcceptAction::FinishClosed) => true,
        (StreamAcceptOutcome::Failed, StreamAcceptAction::FinishErrored) => true,
        _ => false,
    }
}

/// One connection's stream acceptor. It owns the connection; the workers it
/// asks the I/O loop to spawn own their streams and share nothing with it.
pub struct StreamAcceptor {
    connection_id: u64,
    phase: AcceptorPhase,
    admitted: Ghost<Seq<u64>>,
}

impl StreamAcceptor {
    /// The acceptor's mathematical state.
    pub closed spec fn model(self) -> AcceptorModel {
        AcceptorModel { phase: self.phase, admitted: self.admitted@ }
    }

    /// The id of the owned connection, for attributing every stream to it.
    pub closed spec fn id(self) -> u64 {
        self.connection_id
    }

    /// Take ownership of the connection with this id.
    pub fn new(connection_id: u64) -> (a: StreamAcceptor)
        ensures
            a.model() == acceptor_init(),
            a.id() == connection_id,
    {
        StreamAcceptor {
            connection_id,
            phase: AcceptorPhase::Accepting,
            admitted: Ghost(Seq::empty()),
        }
    }

    pub fn phase(&self) -> (p: AcceptorPhase)
        ensures
            p == self.model().phase,
    {
        self.phase
    }

    pub fn connection_id(&self) -> (id: u64)
        ensures
            id == self.id(),
    {
        self.connection_id
    }

    /// Hand in the outcome of one stream accept. On a new stream the action
    /// says to spawn a detached worker for exactly that stream and the
    /// acceptor keeps accepting; on a clean end or an accept error it stops.
    /// The set of admitted streams grows only here, and only by the stream
    /// the transport actually admitted.
    pub fn on_accept(&mut self, outcome: StreamAcceptOutcome) -> (act: StreamAcceptAction)
        requires
            old(self).model().phase == AcceptorPhase::Accepting,
        ensures
            final(self).model() == acceptor_step(old(self).model(), outcome),
            final(self).id() == old(self).id(),
            accept_action_matches(outcome, act),
    {
        match outcome {
            StreamAcceptOutcome::Opened(id) => {
                self.admitted = Ghost(self.admitted@.push(id));
                StreamAcceptAction::SpawnWorker(id)
            }
            StreamAcceptOutcome::NoMoreStreams => {
                self.phase = AcceptorPhase::Closed;
                StreamAcceptAction::FinishClosed
            }
            StreamAcceptOutcome::Failed => {
                self.phase = AcceptorPhase::Errored;
                StreamAcceptAction::FinishErrored
            }
        }
    }
}

/// A connection's streams only grow by explicit acceptance: one step admits
/// at most the one stream the transport handed over, and never drops or
/// reorders what was admitted before.
pub proof fn lemma_admission_only_by_accept(m: AcceptorModel, out: StreamAcceptOutcome)
    ensures
        acceptor_step(m, out).admitted == if m.phase == AcceptorPhase::Accepting
            && out is Opened {
            m.admitted.push(out->Opened_0)
        } else {
            m.admitted
        },
{
}

/// A stopped acceptor stays stopped: a closed or broken connection is not
/// reestablished here, and admits nothing more.
pub proof fn lemma_stopped_acceptor_stays_stopped(m: AcceptorModel, outs: Seq<StreamAcceptOutcome>)
    requires
        m.phase != AcceptorPhase::Accepting,
    ensures
        acceptor_run(m, outs) == m,
    decreases outs.len(),
{
    if outs.len() > 0 {
        lemma_stopped_acceptor_stays_stopped(
            acceptor_step(m, outs[0]),
            outs.subrange(1, outs.len() as int),
        );
    }
}

/// Over any whole run, what was admitted stays admitted, in order: the
/// earlier admissions are a prefix of the later ones.
pub proof fn lemma_admission_monotonic(m: AcceptorModel, outs: Seq<StreamAcceptOutcome>)
    ensures
        m.admitted.is_prefix_of(acceptor_run(m, outs).admitted),
    decreases outs.len(),
{
    if outs.len() == 0 {
        assert(m.admitted.is_prefix_of(m.admitted));
    } else {
        let next = acceptor_step(m, outs[0]);
        lemma_admission_monotonic(next, outs.subrange(1, outs.len() as int));
        assert(m.admitted.is_prefix_of(next.admitted));
        assert(next.admitted.is_prefix_of(acceptor_run(m, outs).admitted));
    }
}

} // verus!
