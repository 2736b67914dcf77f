//! Independence of concurrent streams and connections.
//!
//! The workers of different streams share nothing, so any interleaving of a
//! whole server's traffic is modelled as one merged history of events, each
//! tagged with its connection and stream. A stream's state is the worker run
//! over its own projection of that history. The lemmas here state the
//! independence this buys: a stream's echoes are determined by its own
//! events alone, events of sibling streams or of other connections are
//! invisible to it wherever they interleave, and accepting a further stream
//! never waits on, or disturbs, a worker that is still busy.

use vstd::prelude::*;
use crate::acceptor::AcceptorModel;
use crate::acceptor::AcceptorPhase;
use crate::acceptor::StreamAcceptOutcome;
use crate::acceptor::acceptor_init;
use crate::acceptor::acceptor_step;
use crate::worker::Phase;
use crate::worker::StreamEvent;
use crate::worker::Termination;
use crate::worker::WorkerModel;
use crate::worker::clean_session;
use crate::worker::lemma_clean_shutdown;
use crate::worker::lemma_send_failure_mid_session;
use crate::worker::send_failing_session;
use crate::worker::worker_init;
use crate::worker::worker_run;
use crate::worker::worker_step;

verus! {

/// One event in the merged history of a whole server: on which connection
/// and which stream within it something happened, and what.
pub struct TaggedEvent {
    pub connection: u64,
    pub stream: u64,
    pub event: StreamEvent,
}

/// The events of one stream, in order: the merged history projected onto
/// the streams of connection c and, among them, stream s.
pub open spec fn stream_history(t: Seq<TaggedEvent>, c: u64, s: u64) -> Seq<StreamEvent>
    decreases t.len(),
{
    if t.len() == 0 {
        Seq::empty()
    } else {
        let rest = stream_history(t.drop_last(), c, s);
        if t.last().connection == c && t.last().stream == s {
            rest.push(t.last().event)
        } else {
            rest
        }
    }
}

/// The state of the worker of stream (c, s) after the merged history t.
pub open spec fn stream_state(t: Seq<TaggedEvent>, c: u64, s: u64) -> WorkerModel {
    worker_run(worker_init(), stream_history(t, c, s))
}

/// The chunks echoed back on stream (c, s), in order.
pub open spec fn stream_echoes(t: Seq<TaggedEvent>, c: u64, s: u64) -> Seq<Seq<u8>> {
    stream_state(t, c, s).echoed
}

/// Multiplexing independence: two merged histories that agree on one
/// stream's own events leave that stream's worker in the same state, and in
/// particular with the same echoes, however the rest of the traffic differs.
pub proof fn lemma_stream_self_determined(t1: Seq<TaggedEvent>, t2: Seq<TaggedEvent>, c: u64, s: u64)
    requires
        stream_history(t1, c, s) == stream_history(t2, c, s),
    ensures
        stream_state(t1, c, s) == stream_state(t2, c, s),
{
}

/// Whatever happens on other streams or other connections after a history,
/// a stream's own projection, and so its state, stays as it was.
pub proof fn lemma_foreign_events_invisible(
    t: Seq<TaggedEvent>,
    u: Seq<TaggedEvent>,
    c: u64,
    s: u64,
)
    requires
        forall|i: int| 0 <= i < u.len()
            ==> (#[trigger] u[i]).connection != c || u[i].stream != s,
    ensures
        stream_history(t + u, c, s) == stream_history(t, c, s),
        stream_state(t + u, c, s) == stream_state(t, c, s),
    decreases u.len(),
{
    if u.len() == 0 {
        assert(t + u =~= t);
    } else {
        let shorter = u.drop_last();
        assert((t + u).drop_last() =~= t + shorter);
        assert((t + u).last() == u.last());
        lemma_foreign_events_invisible(t, shorter, c, s);
    }
}

/// Error isolation: an event of another stream or another connection — a
/// forced break of that stream included — inserted anywhere into the merged
/// history is invisible to this stream; its worker's state is unchanged.
pub proof fn lemma_foreign_event_insert(
    t: Seq<TaggedEvent>,
    k: int,
    e: TaggedEvent,
    c: u64,
    s: u64,
)
    requires
        0 <= k <= t.len(),
        e.connection != c || e.stream != s,
    ensures
        stream_history(t.insert(k, e), c, s) == stream_history(t, c, s),
        stream_state(t.insert(k, e), c, s) == stream_state(t, c, s),
    decreases t.len(),
{
    let grown = t.insert(k, e);
    if k == t.len() {
        assert(grown.drop_last() =~= t);
        assert(grown.last() == e);
    } else {
        assert(grown.last() == t.last());
        assert(grown.drop_last() =~= t.drop_last().insert(k, e));
        lemma_foreign_event_insert(t.drop_last(), k, e, c, s);
    }
}

/// Each stream receives back only its own payload: if, within the merged
/// history of the whole server, a stream's peer sent these chunks with every
/// echoing send succeeding and then closed its write side, then that stream
/// echoed exactly those chunks, in order, and ended cleanly — whatever any
/// sibling stream or other connection carried.
pub proof fn lemma_stream_echoes_own_payload(
    t: Seq<TaggedEvent>,
    c: u64,
    s: u64,
    chunks: Seq<Seq<u8>>,
)
    requires
        stream_history(t, c, s) == clean_session(chunks),
    ensures
        stream_echoes(t, c, s) == chunks,
        stream_state(t, c, s).phase == Phase::Done(Termination::PeerClosed),
{
    lemma_clean_shutdown(worker_init(), chunks);
    assert(Seq::<Seq<u8>>::empty() + chunks =~= chunks);
}

/// Even a stream that was forcibly broken mid-session echoed exactly the
/// chunks whose sends completed, in order, and reported the break — nothing
/// half-echoed, and nothing of any other stream mixed in.
pub proof fn lemma_broken_stream_echoed_what_completed(
    t: Seq<TaggedEvent>,
    c: u64,
    s: u64,
    done: Seq<Seq<u8>>,
    lost: Seq<u8>,
)
    requires
        stream_history(t, c, s) == send_failing_session(done, lost),
    ensures
        stream_echoes(t, c, s) == done,
        stream_state(t, c, s).phase == Phase::Done(Termination::SendError),
{
    lemma_send_failure_mid_session(worker_init(), done, lost);
    assert(Seq::<Seq<u8>>::empty() + done =~= done);
}

/// The merged history projected onto one connection, tags kept.
pub open spec fn connection_history(t: Seq<TaggedEvent>, c: u64) -> Seq<TaggedEvent>
    decreases t.len(),
{
    if t.len() == 0 {
        Seq::empty()
    } else {
        let rest = connection_history(t.drop_last(), c);
        if t.last().connection == c {
            rest.push(t.last())
        } else {
            rest
        }
    }
}

/// A stream's projection can be read off its connection's projection alone.
pub proof fn lemma_stream_history_via_connection(t: Seq<TaggedEvent>, c: u64, s: u64)
    ensures
        stream_history(connection_history(t, c), c, s) == stream_history(t, c, s),
    decreases t.len(),
{
    if t.len() == 0 {
    } else {
        lemma_stream_history_via_connection(t.drop_last(), c, s);
        if t.last().connection == c {
            let projected = connection_history(t, c);
            assert(projected.drop_last() =~= connection_history(t.drop_last(), c));
            assert(projected.last() == t.last());
        }
    }
}

/// Connection independence: two merged histories that agree on one
/// connection's events leave every stream of that connection in the same
/// state; concurrent connections never observe each other's traffic.
pub proof fn lemma_connection_independence(
    t1: Seq<TaggedEvent>,
    t2: Seq<TaggedEvent>,
    c: u64,
    s: u64,
)
    requires
        connection_history(t1, c) == connection_history(t2, c),
    ensures
        stream_state(t1, c, s) == stream_state(t2, c, s),
{
    lemma_stream_history_via_connection(t1, c, s);
    lemma_stream_history_via_connection(t2, c, s);
}

/// The joint state of one connection: its stream acceptor beside the
/// workers of its admitted streams, each under its stream id.
#[verifier::ext_equal]
pub struct ConnectionSystem {
    pub acceptor: AcceptorModel,
    pub workers: Map<u64, WorkerModel>,
}

/// A connection that was just accepted: no streams yet.
pub open spec fn system_init() -> ConnectionSystem {
    ConnectionSystem { acceptor: acceptor_init(), workers: Map::empty() }
}

/// Admitting a stream spawns a fresh worker beside the existing ones.
pub open spec fn system_accept(sys: ConnectionSystem, id: u64) -> ConnectionSystem {
    ConnectionSystem {
        acceptor: acceptor_step(sys.acceptor, StreamAcceptOutcome::Opened(id)),
        workers: sys.workers.insert(id, worker_init()),
    }
}

/// An event on one admitted stream moves that stream's worker alone.
pub open spec fn system_stream_event(sys: ConnectionSystem, id: u64, ev: StreamEvent) -> ConnectionSystem {
    ConnectionSystem {
        acceptor: sys.acceptor,
        workers: sys.workers.insert(id, worker_step(sys.workers[id], ev)),
    }
}

/// Accepting the next stream is enabled exactly while the connection lives;
/// it never waits on any worker.
pub open spec fn accept_enabled(sys: ConnectionSystem) -> bool {
    sys.acceptor.phase == AcceptorPhase::Accepting
}

/// Unbounded concurrency, no head-of-line blocking: while the worker of one
/// admitted stream is still in its echo loop — pending on a receive, say —
/// the acceptor can admit the next stream at once. The new worker starts
/// fresh, the busy worker and every other worker are untouched, and the
/// acceptor is immediately ready to accept again.
pub proof fn lemma_no_head_of_line_blocking(sys: ConnectionSystem, busy: u64, fresh: u64)
    requires
        accept_enabled(sys),
        sys.workers.dom().contains(busy),
        !(sys.workers[busy].phase is Done),
        !sys.workers.dom().contains(fresh),
    ensures
        accept_enabled(system_accept(sys, fresh)),
        system_accept(sys, fresh).workers.dom().contains(fresh),
        system_accept(sys, fresh).workers[fresh] == worker_init(),
        system_accept(sys, fresh).workers[busy] == sys.workers[busy],
        system_accept(sys, fresh).acceptor.admitted == sys.acceptor.admitted.push(fresh),
        forall|other: u64| other != fresh
            ==> #[trigger] system_accept(sys, fresh).workers[other] == sys.workers[other],
{
}

/// A stream event is local: it leaves the acceptor, the set of admitted
/// streams, and every other stream's worker exactly as they were.
pub proof fn lemma_stream_event_is_local(sys: ConnectionSystem, id: u64, ev: StreamEvent)
    requires
        sys.workers.dom().contains(id),
    ensures
        system_stream_event(sys, id, ev).acceptor == sys.acceptor,
        system_stream_event(sys, id, ev).workers.dom() == sys.workers.dom(),
        forall|other: u64| other != id
            ==> #[trigger] system_stream_event(sys, id, ev).workers[other] == sys.workers[other],
{
    assert(system_stream_event(sys, id, ev).workers.dom() =~= sys.workers.dom());
}

/// A connection's set of live streams grows only by explicit acceptance:
/// a stream event never adds or removes a worker, and an accept adds
/// exactly the one admitted stream.
pub proof fn lemma_streams_grow_only_by_accept(sys: ConnectionSystem, id: u64, ev: StreamEvent, fresh: u64)
    requires
        sys.workers.dom().contains(id),
    ensures
        system_stream_event(sys, id, ev).workers.dom() == sys.workers.dom(),
        system_accept(sys, fresh).workers.dom() == sys.workers.dom().insert(fresh),
{
    assert(system_stream_event(sys, id, ev).workers.dom() =~= sys.workers.dom());
    assert(system_accept(sys, fresh).workers.dom() =~= sys.workers.dom().insert(fresh));
}

} // verus!
