//! Verified core of a multiplexed echo server.
//!
//! A server accepts many concurrent connections; within each connection it
//! accepts many concurrent bidirectional streams; each stream is served by a
//! worker that echoes every received chunk back unchanged until the peer
//! closes its write side or an error occurs.
//!
//! The transport (accepting, receiving, sending) is asynchronous I/O and
//! stays outside this crate. The crate holds the decision logic of the three
//! loops as state machines: each transition takes the outcome of one blocking
//! transport operation and returns the next action, with a contract that pins
//! the transition down exactly. A trace model over tagged events states and
//! proves the independence of concurrent streams and connections.

pub mod acceptor;
pub mod mux;
pub mod server;
pub mod worker;
