use echo_mux::worker::EchoWorker;
use echo_mux::worker::Phase;
use echo_mux::worker::ReceiveAction;
use echo_mux::worker::ReceiveOutcome;
use echo_mux::worker::SendAction;
use echo_mux::worker::SendOutcome;
use echo_mux::worker::Termination;

#[test]
fn echoes_chunk_byte_for_byte() {
    let mut worker = EchoWorker::new(4);
    assert_eq!(worker.stream_id(), 4);
    assert_eq!(worker.phase(), Phase::Receiving);
    let action = worker.on_receive(ReceiveOutcome::Chunk(b"ping".to_vec()));
    assert_eq!(action, ReceiveAction::Echo(b"ping".to_vec()));
    assert_eq!(worker.phase(), Phase::Sending);
    let next = worker.on_send_result(SendOutcome::Sent);
    assert_eq!(next, SendAction::Continue);
    assert_eq!(worker.phase(), Phase::Receiving);
}

#[test]
fn echoes_one_byte_chunk() {
    let mut worker = EchoWorker::new(0);
    let action = worker.on_receive(ReceiveOutcome::Chunk(vec![0x7f]));
    assert_eq!(action, ReceiveAction::Echo(vec![0x7f]));
}

#[test]
fn echoes_chunk_of_full_buffer_capacity() {
    let mut worker = EchoWorker::new(9);
    let chunk: Vec<u8> = (0..1024u32).map(|i| (i % 251) as u8).collect();
    let action = worker.on_receive(ReceiveOutcome::Chunk(chunk.clone()));
    assert_eq!(action, ReceiveAction::Echo(chunk));
    assert_eq!(worker.on_send_result(SendOutcome::Sent), SendAction::Continue);
}

#[test]
fn clean_shutdown_after_k_messages() {
    let mut worker = EchoWorker::new(2);
    let messages: [&[u8]; 3] = [b"one", b"two", b"three"];
    for message in messages {
        let action = worker.on_receive(ReceiveOutcome::Chunk(message.to_vec()));
        assert_eq!(action, ReceiveAction::Echo(message.to_vec()));
        assert_eq!(worker.on_send_result(SendOutcome::Sent), SendAction::Continue);
    }
    let action = worker.on_receive(ReceiveOutcome::EndOfStream);
    assert_eq!(action, ReceiveAction::Finish(Termination::PeerClosed));
    assert_eq!(worker.phase(), Phase::Done(Termination::PeerClosed));
}

#[test]
fn immediate_close_is_clean() {
    let mut worker = EchoWorker::new(11);
    let action = worker.on_receive(ReceiveOutcome::EndOfStream);
    assert_eq!(action, ReceiveAction::Finish(Termination::PeerClosed));
}

#[test]
fn receive_failure_stops_with_receive_error() {
    let mut worker = EchoWorker::new(5);
    let action = worker.on_receive(ReceiveOutcome::Failed);
    assert_eq!(action, ReceiveAction::Finish(Termination::ReceiveError));
    assert_eq!(worker.phase(), Phase::Done(Termination::ReceiveError));
}

#[test]
fn send_failure_stops_with_send_error() {
    let mut worker = EchoWorker::new(6);
    let action = worker.on_receive(ReceiveOutcome::Chunk(b"lost".to_vec()));
    assert_eq!(action, ReceiveAction::Echo(b"lost".to_vec()));
    let next = worker.on_send_result(SendOutcome::Failed);
    assert_eq!(next, SendAction::Finish(Termination::SendError));
    assert_eq!(worker.phase(), Phase::Done(Termination::SendError));
}

#[test]
fn echoes_preserve_order_across_cycles() {
    let mut worker = EchoWorker::new(3);
    for round in 0..8u8 {
        let chunk = vec![round, round + 1, round + 2];
        let action = worker.on_receive(ReceiveOutcome::Chunk(chunk.clone()));
        match action {
            ReceiveAction::Echo(echoed) => assert_eq!(echoed, chunk),
            other => panic!("expected an echo, got {:?}", other),
        }
        assert_eq!(worker.on_send_result(SendOutcome::Sent), SendAction::Continue);
    }
    assert_eq!(worker.phase(), Phase::Receiving);
}
