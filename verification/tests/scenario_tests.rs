//! The end-to-end scenario: one connection, two interleaved streams, one of
//! them closed while the other stays active; and the isolation of failures.

use echo_mux::acceptor::AcceptorPhase;
use echo_mux::acceptor::StreamAcceptAction;
use echo_mux::acceptor::StreamAcceptOutcome;
use echo_mux::acceptor::StreamAcceptor;
use echo_mux::server::ConnectionAcceptAction;
use echo_mux::server::ConnectionAcceptOutcome;
use echo_mux::server::ConnectionAcceptor;
use echo_mux::worker::EchoWorker;
use echo_mux::worker::Phase;
use echo_mux::worker::ReceiveAction;
use echo_mux::worker::ReceiveOutcome;
use echo_mux::worker::SendAction;
use echo_mux::worker::SendOutcome;
use echo_mux::worker::Termination;

#[test]
fn two_streams_on_one_connection_stay_independent() {
    let mut server = ConnectionAcceptor::new();
    let action = server.on_accept(ConnectionAcceptOutcome::Connected(1));
    assert_eq!(action, ConnectionAcceptAction::SpawnConnection(1));

    let mut acceptor = StreamAcceptor::new(1);

    // Stream S1 opens and sends "ping"; its echo is still in flight ...
    assert_eq!(acceptor.on_accept(StreamAcceptOutcome::Opened(1)), StreamAcceptAction::SpawnWorker(1));
    let mut s1 = EchoWorker::new(1);
    let s1_action = s1.on_receive(ReceiveOutcome::Chunk(b"ping".to_vec()));
    assert_eq!(s1_action, ReceiveAction::Echo(b"ping".to_vec()));

    // ... while the acceptor already admits S2: no head-of-line blocking.
    assert_eq!(acceptor.phase(), AcceptorPhase::Accepting);
    assert_eq!(acceptor.on_accept(StreamAcceptOutcome::Opened(2)), StreamAcceptAction::SpawnWorker(2));
    let mut s2 = EchoWorker::new(2);

    // S2 echoes "hello", independent of S1's timing.
    let s2_action = s2.on_receive(ReceiveOutcome::Chunk(b"hello".to_vec()));
    assert_eq!(s2_action, ReceiveAction::Echo(b"hello".to_vec()));
    assert_eq!(s2.on_send_result(SendOutcome::Sent), SendAction::Continue);

    // S1's echo completes; the peer then closes S1's write side, and the S1
    // worker exits cleanly while S2 remains active.
    assert_eq!(s1.on_send_result(SendOutcome::Sent), SendAction::Continue);
    assert_eq!(s1.on_receive(ReceiveOutcome::EndOfStream), ReceiveAction::Finish(Termination::PeerClosed));
    assert_eq!(s1.phase(), Phase::Done(Termination::PeerClosed));
    assert_eq!(s2.phase(), Phase::Receiving);

    // S2 keeps echoing after S1 is gone.
    let s2_action = s2.on_receive(ReceiveOutcome::Chunk(b"again".to_vec()));
    assert_eq!(s2_action, ReceiveAction::Echo(b"again".to_vec()));
}

#[test]
fn breaking_one_stream_leaves_siblings_running() {
    let mut acceptor = StreamAcceptor::new(3);
    assert_eq!(acceptor.on_accept(StreamAcceptOutcome::Opened(1)), StreamAcceptAction::SpawnWorker(1));
    assert_eq!(acceptor.on_accept(StreamAcceptOutcome::Opened(2)), StreamAcceptAction::SpawnWorker(2));
    let mut s1 = EchoWorker::new(1);
    let mut s2 = EchoWorker::new(2);

    // S1 breaks mid-session.
    assert_eq!(s1.on_receive(ReceiveOutcome::Chunk(b"half".to_vec())), ReceiveAction::Echo(b"half".to_vec()));
    assert_eq!(s1.on_send_result(SendOutcome::Failed), SendAction::Finish(Termination::SendError));
    assert_eq!(s1.phase(), Phase::Done(Termination::SendError));

    // The sibling stream and the acceptor are unaffected.
    assert_eq!(s2.phase(), Phase::Receiving);
    assert_eq!(s2.on_receive(ReceiveOutcome::Chunk(b"alive".to_vec())), ReceiveAction::Echo(b"alive".to_vec()));
    assert_eq!(acceptor.phase(), AcceptorPhase::Accepting);
    assert_eq!(acceptor.on_accept(StreamAcceptOutcome::Opened(5)), StreamAcceptAction::SpawnWorker(5));
}

#[test]
fn two_connections_never_observe_each_other() {
    let mut server = ConnectionAcceptor::new();
    assert_eq!(server.on_accept(ConnectionAcceptOutcome::Connected(1)), ConnectionAcceptAction::SpawnConnection(1));
    assert_eq!(server.on_accept(ConnectionAcceptOutcome::Connected(2)), ConnectionAcceptAction::SpawnConnection(2));

    let mut c1_acceptor = StreamAcceptor::new(1);
    let mut c2_acceptor = StreamAcceptor::new(2);
    assert_eq!(c1_acceptor.on_accept(StreamAcceptOutcome::Opened(1)), StreamAcceptAction::SpawnWorker(1));
    assert_eq!(c2_acceptor.on_accept(StreamAcceptOutcome::Opened(1)), StreamAcceptAction::SpawnWorker(1));
    let mut c1_s1 = EchoWorker::new(1);
    let mut c2_s1 = EchoWorker::new(1);

    // Tagged payloads: each stream gets back exactly its own.
    assert_eq!(
        c1_s1.on_receive(ReceiveOutcome::Chunk(b"from c1".to_vec())),
        ReceiveAction::Echo(b"from c1".to_vec())
    );
    assert_eq!(
        c2_s1.on_receive(ReceiveOutcome::Chunk(b"from c2".to_vec())),
        ReceiveAction::Echo(b"from c2".to_vec())
    );

    // One whole connection breaks; the other is untouched.
    assert_eq!(c1_acceptor.on_accept(StreamAcceptOutcome::Failed), StreamAcceptAction::FinishErrored);
    assert_eq!(c2_acceptor.phase(), AcceptorPhase::Accepting);
    assert_eq!(c2_s1.on_send_result(SendOutcome::Sent), SendAction::Continue);
    assert_eq!(c2_s1.phase(), Phase::Receiving);
}
