//! The server-side connection acceptor and its configuration.
//!
//! One acceptor owns the listening endpoint. It repeatedly takes the outcome
//! of a blocking accept of the next incoming connection and answers with the
//! action the I/O loop must perform next: dispatch a detached per-connection
//! stream acceptor and accept again at once, or stop. No backpressure is
//! applied to the number of concurrent connections: the fan-out is unbounded
//! by design, a deliberate simplicity/latency tradeoff, and it is not
//! silently capped here.

use vstd::prelude::*;

verus! {

/// Explicit configuration for the server's entry point, in place of any
/// global mutable state.
pub struct ServerConfig {
    /// Where to listen, e.g. an address and port.
    pub listen_addr: String,
    /// Capacity in bytes of the transient buffer of one receive/send cycle;
    /// a receive asks the transport for at most this many bytes.
    pub buffer_capacity: usize,
}

impl ServerConfig {
    /// A usable configuration holds at least one byte per cycle.
    pub open spec fn wf(self) -> bool {
        self.buffer_capacity >= 1
    }

    /// Build a configuration; a zero buffer capacity is rejected.
    pub fn new(listen_addr: String, buffer_capacity: usize) -> (r: Option<ServerConfig>)
        ensures
            match r {
                Some(c) => c.wf() && c.listen_addr == listen_addr
                    && c.buffer_capacity == buffer_capacity,
                None => buffer_capacity == 0,
            },
            r is Some <==> buffer_capacity >= 1,
    {
        if buffer_capacity >= 1 {
            Some(ServerConfig { listen_addr, buffer_capacity })
        } else {
            None
        }
    }
}

/// What one blocking accept on the listener produced.
#[derive(Clone, Copy, Debug, PartialEq, Eq)]
pub enum ConnectionAcceptOutcome {
    /// A peer connected; the connection got this id.
    Connected(u64),
    /// The listener was closed: an orderly shutdown.
    ListenerClosed,
    /// The accept itself failed: a fatal listener error.
    Failed,
}

/// Where the server's connection acceptor stands between accepts.
#[derive(Clone, Copy, Debug, PartialEq, Eq)]
pub enum ServerPhase {
    /// Waiting for the outcome of the next connection accept.
    Listening,
    /// The listener closed; the server stopped in order.
    ShutDown,
    /// A fatal listener error; the server stopped and reports it.
    Errored,
}

/// What the I/O loop must do after handing in a connection accept outcome.
#[derive(Clone, Copy, Debug, PartialEq, Eq)]
pub enum ConnectionAcceptAction {
    /// Dispatch a detached stream acceptor for the connection with this id,
    /// then accept the next connection at once, without waiting on it.
    SpawnConnection(u64),
    /// Stop the loop; the listener closed in order.
    FinishShutDown,
    /// Stop the loop and report the fatal listener error.
    FinishErrored,
}

/// The mathematical state of the connection acceptor: its phase and the ids
/// of the connections it has admitted, in order of acceptance.
#[verifier::ext_equal]
pub struct ServerModel {
    pub phase: ServerPhase,
    pub admitted: Seq<u64>,
}

/// The state of an acceptor that has just taken ownership of the listener.
pub open spec fn server_init() -> ServerModel {
    ServerModel { phase: ServerPhase::Listening, admitted: Seq::empty() }
}

/// The connection acceptor's transition function. An outcome arriving after
/// the server stopped leaves the state unchanged.
pub open spec fn server_step(m: ServerModel, out: ConnectionAcceptOutcome) -> ServerModel {
    if m.phase == ServerPhase::Listening {
        match out {
            ConnectionAcceptOutcome::Connected(id) => ServerModel {
                phase: ServerPhase::Listening,
                admitted: m.admitted.push(id),
            },
            ConnectionAcceptOutcome::ListenerClosed => ServerModel {
                phase: ServerPhase::ShutDown,
                admitted: m.admitted,
            },
            ConnectionAcceptOutcome::Failed => ServerModel {
                phase: ServerPhase::Errored,
                admitted: m.admitted,
            },
        }
    } else {
        m
    }
}

/// The one action a listening server may answer to an outcome: spawn a
/// stream acceptor for exactly the admitted connection, or stop with the
/// matching report.
pub open spec fn connection_action_matches(
    out: ConnectionAcceptOutcome,
    act: ConnectionAcceptAction,
) -> bool {
    match (out, act) {
        (ConnectionAcceptOutcome::Connected(id), ConnectionAcceptAction::SpawnConnection(cid)) =>
            cid == id,
        (ConnectionAcceptOutcome::ListenerClosed, ConnectionAcceptAction::FinishShutDown) => true,
        (ConnectionAcceptOutcome::Failed, ConnectionAcceptAction::FinishErrored) => true,
        _ => false,
    }
}

/// The server's connection acceptor. It is the only task that touches the
/// listener; the per-connection acceptors it asks the I/O loop to spawn own
/// their connections and share nothing with it or each other.
pub struct ConnectionAcceptor {
    phase: ServerPhase,
    admitted: Ghost<Seq<u64>>,
}

impl ConnectionAcceptor {
    /// The acceptor's mathematical state.
    pub closed spec fn model(self) -> ServerModel {
        ServerModel { phase: self.phase, admitted: self.admitted@ }
    }

    /// Take ownership of the freshly bound listener.
    pub fn new() -> (a: ConnectionAcceptor)
        ensures
            a.model() == server_init(),
    {
        ConnectionAcceptor { phase: ServerPhase::Listening, admitted: Ghost(Seq::empty()) }
    }

    pub fn phase(&self) -> (p: ServerPhase)
        ensures
            p == self.model().phase,
    {
        self.phase
    }

    /// Hand in the outcome of one connection accept. On a new connection the
    /// action says to spawn a detached per-connection acceptor for exactly
    /// that connection and the server keeps listening; on listener closure
    /// or a fatal error it stops.
    pub fn on_accept(&mut self, outcome: ConnectionAcceptOutcome) -> (act: ConnectionAcceptAction)
        requires
            old(self).model().phase == ServerPhase::Listening,
        ensures
            final(self).model() == server_step(old(self).model(), outcome),
            connection_action_matches(outcome, act),
    {
        match outcome {
            ConnectionAcceptOutcome::Connected(id) => {
                self.admitted = Ghost(self.admitted@.push(id));
                ConnectionAcceptAction::SpawnConnection(id)
            }
            ConnectionAcceptOutcome::ListenerClosed => {
                self.phase = ServerPhase::ShutDown;
                ConnectionAcceptAction::FinishShutDown
            }
            ConnectionAcceptOutcome::Failed => {
                self.phase = ServerPhase::Errored;
                ConnectionAcceptAction::FinishErrored
            }
        }
    }
}

} // verus!
