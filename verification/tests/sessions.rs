use relay::{
    DispatchAction, DispatchEvent, DispatchState, Dispatcher, ReadAction, ReadConnection,
    ReadEvent, ReadStage, RelayError, WriteAction, WriteConnection, WriteEvent, WriteStage,
};

#[test]
fn session_opens_idle_with_inbound_asked_to_run() {
    let mut inbound = ReadConnection::spawn();
    let mut outbound = WriteConnection::spawn();
    let session = Dispatcher::open(&mut inbound, &mut outbound);
    assert_eq!(session.state(), DispatchState::Idle);
    assert!(inbound.signal_pending());
    assert!(outbound.signal_pending());
    assert_eq!(inbound.step(ReadEvent::Wake), Ok(ReadAction::Connect));
    assert_eq!(outbound.step(WriteEvent::Wake), Ok(WriteAction::Wait));
}

#[test]
fn client_buffer_is_forwarded_to_peer() {
    let mut inbound = ReadConnection::spawn();
    let mut outbound = WriteConnection::spawn();
    let mut session = Dispatcher::open(&mut inbound, &mut outbound);
    assert_eq!(inbound.step(ReadEvent::Wake), Ok(ReadAction::Connect));
    assert_eq!(inbound.step(ReadEvent::Connected), Ok(ReadAction::Read));

    let action =
        session.step(&mut inbound, &mut outbound, DispatchEvent::ClientData(vec![0x38, 0x00, 0x09]));
    assert_eq!(action, Ok(DispatchAction::AwaitCompletion));
    assert_eq!(session.state(), DispatchState::Forwarding);

    assert_eq!(inbound.step(ReadEvent::Byte(0x11)), Ok(ReadAction::Shutdown));
    assert_eq!(inbound.step(ReadEvent::Closed), Ok(ReadAction::Wait));
    assert!(!inbound.enabled());

    assert_eq!(outbound.step(WriteEvent::Wake), Ok(WriteAction::Connect));
    assert_eq!(
        outbound.step(WriteEvent::Connected),
        Ok(WriteAction::Write(vec![0x38, 0x00, 0x09]))
    );
    assert_eq!(outbound.completion(), Ok(None));
    assert_eq!(outbound.step(WriteEvent::Written), Ok(WriteAction::AwaitBuffer));
    assert_eq!(outbound.completion(), Ok(Some(true)));
    assert_eq!(outbound.completion(), Ok(None));

    let action = session.step(&mut inbound, &mut outbound, DispatchEvent::Completed(true));
    assert_eq!(action, Ok(DispatchAction::ReadClient));
    assert_eq!(session.state(), DispatchState::Idle);

    assert_eq!(inbound.step(ReadEvent::Wake), Ok(ReadAction::Connect));
    assert!(inbound.enabled());
    assert!(outbound.signal_pending());
    assert_eq!(outbound.step(WriteEvent::Wake), Ok(WriteAction::Shutdown));
    assert_eq!(outbound.stage(), WriteStage::Closing);
    assert_eq!(outbound.step(WriteEvent::Closed), Ok(WriteAction::Wait));
    assert_eq!(outbound.stage(), WriteStage::Idle);
    assert!(!outbound.enabled());
    assert_eq!(outbound.queued(), 0);
    assert_eq!(outbound.completion(), Ok(None));
}

#[test]
fn silent_client_gets_one_peer_byte() {
    let mut inbound = ReadConnection::spawn();
    let mut outbound = WriteConnection::spawn();
    let mut session = Dispatcher::open(&mut inbound, &mut outbound);

    let action = session.step(&mut inbound, &mut outbound, DispatchEvent::ClientSilent);
    assert_eq!(action, Ok(DispatchAction::AwaitByte));
    assert_eq!(session.state(), DispatchState::Relaying);

    assert_eq!(inbound.step(ReadEvent::Wake), Ok(ReadAction::Connect));
    assert_eq!(inbound.step(ReadEvent::Connected), Ok(ReadAction::Read));
    assert_eq!(inbound.receive(), Ok(None));
    assert_eq!(inbound.step(ReadEvent::Byte(0x2A)), Ok(ReadAction::Read));
    assert_eq!(inbound.receive(), Ok(Some(0x2A)));

    let action = session.step(&mut inbound, &mut outbound, DispatchEvent::PeerByte(0x2A));
    assert_eq!(action, Ok(DispatchAction::Reply(0x2A)));
    assert_eq!(session.state(), DispatchState::Idle);
    assert_eq!(outbound.step(WriteEvent::Wake), Ok(WriteAction::Wait));
    assert_eq!(outbound.stage(), WriteStage::Idle);
}

#[test]
fn empty_client_buffer_counts_as_silence() {
    let mut inbound = ReadConnection::spawn();
    let mut outbound = WriteConnection::spawn();
    let mut session = Dispatcher::open(&mut inbound, &mut outbound);

    let action = session.step(&mut inbound, &mut outbound, DispatchEvent::ClientData(vec![]));
    assert_eq!(action, Ok(DispatchAction::AwaitByte));
    assert_eq!(session.state(), DispatchState::Relaying);
    assert_eq!(outbound.queued(), 0);
    assert_eq!(outbound.step(WriteEvent::Wake), Ok(WriteAction::Wait));
    assert_eq!(inbound.step(ReadEvent::Wake), Ok(ReadAction::Connect));
    assert_eq!(inbound.step(ReadEvent::Connected), Ok(ReadAction::Read));
    assert_eq!(inbound.step(ReadEvent::Byte(0x2A)), Ok(ReadAction::Read));
    assert_eq!(inbound.receive(), Ok(Some(0x2A)));
    let action = session.step(&mut inbound, &mut outbound, DispatchEvent::PeerByte(0x2A));
    assert_eq!(action, Ok(DispatchAction::Reply(0x2A)));
}

#[test]
fn failed_connect_is_reported_and_retried_on_next_enable() {
    let mut inbound = ReadConnection::spawn();
    assert_eq!(inbound.step(ReadEvent::Wake), Ok(ReadAction::Connect));
    assert_eq!(inbound.step(ReadEvent::ConnectFailed), Ok(ReadAction::Wait));
    assert_eq!(inbound.stage(), ReadStage::Idle);
    assert!(!inbound.enabled());
    assert_eq!(inbound.receive(), Err(RelayError::ConnectFailure));
    assert_eq!(inbound.step(ReadEvent::Wake), Ok(ReadAction::Wait));
    assert_eq!(inbound.step(ReadEvent::Byte(1)), Err(RelayError::OutOfTurn));
    inbound.start();
    assert_eq!(inbound.step(ReadEvent::Wake), Ok(ReadAction::Connect));
    assert_eq!(inbound.step(ReadEvent::Connected), Ok(ReadAction::Read));
    assert_eq!(inbound.stage(), ReadStage::Reading);
}

#[test]
fn relay_hands_over_one_byte_per_cycle() {
    let mut inbound = ReadConnection::spawn();
    let mut outbound = WriteConnection::spawn();
    let mut session = Dispatcher::open(&mut inbound, &mut outbound);
    assert_eq!(inbound.step(ReadEvent::Wake), Ok(ReadAction::Connect));
    assert_eq!(inbound.step(ReadEvent::Connected), Ok(ReadAction::Read));
    assert_eq!(inbound.step(ReadEvent::Byte(10)), Ok(ReadAction::Read));
    assert_eq!(inbound.step(ReadEvent::Byte(20)), Ok(ReadAction::Read));

    assert_eq!(
        session.step(&mut inbound, &mut outbound, DispatchEvent::ClientSilent),
        Ok(DispatchAction::AwaitByte)
    );
    assert_eq!(inbound.receive(), Ok(Some(10)));
    assert_eq!(
        session.step(&mut inbound, &mut outbound, DispatchEvent::PeerByte(10)),
        Ok(DispatchAction::Reply(10))
    );
    assert_eq!(inbound.queued(), 1);
    assert_eq!(
        session.step(&mut inbound, &mut outbound, DispatchEvent::PeerByte(20)),
        Err(RelayError::OutOfTurn)
    );
    assert_eq!(
        session.step(&mut inbound, &mut outbound, DispatchEvent::ClientSilent),
        Ok(DispatchAction::AwaitByte)
    );
    assert_eq!(inbound.receive(), Ok(Some(20)));
}

#[test]
fn client_disconnect_closes_session_and_stops_both_managers() {
    let mut inbound = ReadConnection::spawn();
    let mut outbound = WriteConnection::spawn();
    let mut session = Dispatcher::open(&mut inbound, &mut outbound);
    assert_eq!(inbound.step(ReadEvent::Wake), Ok(ReadAction::Connect));
    assert_eq!(inbound.step(ReadEvent::Connected), Ok(ReadAction::Read));
    assert_eq!(
        session.step(&mut inbound, &mut outbound, DispatchEvent::ClientGone),
        Ok(DispatchAction::Close(RelayError::ClientDisconnect))
    );
    assert_eq!(session.state(), DispatchState::Closed);
    assert_eq!(inbound.step(ReadEvent::Byte(1)), Ok(ReadAction::Shutdown));
    assert_eq!(inbound.step(ReadEvent::Closed), Ok(ReadAction::Wait));
    assert_eq!(outbound.step(WriteEvent::Wake), Ok(WriteAction::Wait));
    assert_eq!(
        session.step(&mut inbound, &mut outbound, DispatchEvent::ClientSilent),
        Err(RelayError::OutOfTurn)
    );
    assert_eq!(
        session.step(&mut inbound, &mut outbound, DispatchEvent::ClientGone),
        Err(RelayError::OutOfTurn)
    );
}

#[test]
fn failed_write_closes_session_with_io_failure() {
    let mut inbound = ReadConnection::spawn();
    let mut outbound = WriteConnection::spawn();
    let mut session = Dispatcher::open(&mut inbound, &mut outbound);
    assert_eq!(
        session.step(&mut inbound, &mut outbound, DispatchEvent::ClientData(vec![1, 2])),
        Ok(DispatchAction::AwaitCompletion)
    );
    assert_eq!(outbound.step(WriteEvent::Wake), Ok(WriteAction::Connect));
    assert_eq!(outbound.step(WriteEvent::Connected), Ok(WriteAction::Write(vec![1, 2])));
    assert_eq!(outbound.step(WriteEvent::WriteFailed), Ok(WriteAction::Discard));
    assert_eq!(outbound.completion(), Ok(Some(false)));
    assert_eq!(
        session.step(&mut inbound, &mut outbound, DispatchEvent::Completed(false)),
        Ok(DispatchAction::Close(RelayError::IoFailure))
    );
    assert_eq!(session.state(), DispatchState::Closed);
    assert_eq!(outbound.step(WriteEvent::Wake), Ok(WriteAction::Wait));
    assert_eq!(inbound.step(ReadEvent::Wake), Ok(ReadAction::Wait));
}

#[test]
fn manager_fault_closes_session_with_that_fault() {
    let mut inbound = ReadConnection::spawn();
    let mut outbound = WriteConnection::spawn();
    let mut session = Dispatcher::open(&mut inbound, &mut outbound);
    assert_eq!(
        session.step(&mut inbound, &mut outbound, DispatchEvent::ClientData(vec![5])),
        Ok(DispatchAction::AwaitCompletion)
    );
    assert_eq!(outbound.step(WriteEvent::Wake), Ok(WriteAction::Connect));
    assert_eq!(outbound.step(WriteEvent::ConnectFailed), Ok(WriteAction::Wait));
    assert_eq!(outbound.completion(), Err(RelayError::ConnectFailure));
    assert_eq!(
        session.step(
            &mut inbound,
            &mut outbound,
            DispatchEvent::PeerFailed(RelayError::ConnectFailure)
        ),
        Ok(DispatchAction::Close(RelayError::ConnectFailure))
    );
    assert_eq!(session.state(), DispatchState::Closed);
}

#[test]
fn dispatcher_refuses_event_out_of_turn() {
    let mut inbound = ReadConnection::spawn();
    let mut outbound = WriteConnection::spawn();
    let mut session = Dispatcher::open(&mut inbound, &mut outbound);
    assert_eq!(inbound.step(ReadEvent::Wake), Ok(ReadAction::Connect));
    assert_eq!(
        session.step(&mut inbound, &mut outbound, DispatchEvent::Completed(true)),
        Err(RelayError::OutOfTurn)
    );
    assert_eq!(
        session.step(&mut inbound, &mut outbound, DispatchEvent::PeerByte(1)),
        Err(RelayError::OutOfTurn)
    );
    assert_eq!(session.state(), DispatchState::Idle);
    assert!(!inbound.signal_pending());
    assert_eq!(
        session.step(&mut inbound, &mut outbound, DispatchEvent::ClientData(vec![1])),
        Ok(DispatchAction::AwaitCompletion)
    );
    assert_eq!(
        session.step(&mut inbound, &mut outbound, DispatchEvent::ClientData(vec![2])),
        Err(RelayError::OutOfTurn)
    );
    assert_eq!(outbound.queued(), 1);
}

#[test]
fn dispatcher_never_asks_for_both_directions() {
    let mut inbound = ReadConnection::spawn();
    let mut outbound = WriteConnection::spawn();
    let mut session = Dispatcher::open(&mut inbound, &mut outbound);
    assert_eq!(
        session.step(&mut inbound, &mut outbound, DispatchEvent::ClientData(vec![1])),
        Ok(DispatchAction::AwaitCompletion)
    );
    assert_eq!(inbound.step(ReadEvent::Wake), Ok(ReadAction::Wait));
    assert_eq!(outbound.step(WriteEvent::Wake), Ok(WriteAction::Connect));
    assert!(!inbound.enabled() && outbound.enabled());
    assert_eq!(outbound.step(WriteEvent::Connected), Ok(WriteAction::Write(vec![1])));
    assert_eq!(outbound.step(WriteEvent::Written), Ok(WriteAction::AwaitBuffer));
    assert_eq!(outbound.completion(), Ok(Some(true)));
    assert_eq!(
        session.step(&mut inbound, &mut outbound, DispatchEvent::Completed(true)),
        Ok(DispatchAction::ReadClient)
    );
    assert_eq!(outbound.step(WriteEvent::Wake), Ok(WriteAction::Shutdown));
    assert_eq!(inbound.step(ReadEvent::Wake), Ok(ReadAction::Connect));
    assert!(inbound.enabled() && !outbound.enabled());
}

#[test]
fn buffer_left_by_failed_session_is_not_written_in_the_next() {
    let mut inbound = ReadConnection::spawn();
    let mut outbound = WriteConnection::spawn();
    let mut first = Dispatcher::open(&mut inbound, &mut outbound);
    assert_eq!(
        first.step(&mut inbound, &mut outbound, DispatchEvent::ClientData(vec![1])),
        Ok(DispatchAction::AwaitCompletion)
    );
    assert_eq!(outbound.step(WriteEvent::Wake), Ok(WriteAction::Connect));
    assert_eq!(outbound.step(WriteEvent::ConnectFailed), Ok(WriteAction::Wait));
    assert_eq!(outbound.queued(), 1);
    assert_eq!(outbound.completion(), Err(RelayError::ConnectFailure));
    assert_eq!(
        first.step(
            &mut inbound,
            &mut outbound,
            DispatchEvent::PeerFailed(RelayError::ConnectFailure)
        ),
        Ok(DispatchAction::Close(RelayError::ConnectFailure))
    );
    assert_eq!(outbound.queued(), 0);

    let mut second = Dispatcher::open(&mut inbound, &mut outbound);
    assert_eq!(outbound.step(WriteEvent::Wake), Ok(WriteAction::Wait));
    assert_eq!(
        second.step(&mut inbound, &mut outbound, DispatchEvent::ClientData(vec![2])),
        Ok(DispatchAction::AwaitCompletion)
    );
    assert_eq!(outbound.queued(), 1);
    assert_eq!(outbound.step(WriteEvent::Wake), Ok(WriteAction::Connect));
    assert_eq!(outbound.step(WriteEvent::Connected), Ok(WriteAction::Write(vec![2])));
    assert_eq!(outbound.completion(), Ok(None));
    assert_eq!(outbound.step(WriteEvent::Written), Ok(WriteAction::AwaitBuffer));
    assert_eq!(outbound.completion(), Ok(Some(true)));
    assert_eq!(outbound.completion(), Ok(None));
    assert_eq!(
        second.step(&mut inbound, &mut outbound, DispatchEvent::Completed(true)),
        Ok(DispatchAction::ReadClient)
    );
}

#[test]
fn write_outstanding_at_session_end_completes_for_no_one() {
    let mut inbound = ReadConnection::spawn();
    let mut outbound = WriteConnection::spawn();
    let mut first = Dispatcher::open(&mut inbound, &mut outbound);
    assert_eq!(
        first.step(&mut inbound, &mut outbound, DispatchEvent::ClientData(vec![1])),
        Ok(DispatchAction::AwaitCompletion)
    );
    assert_eq!(outbound.step(WriteEvent::Wake), Ok(WriteAction::Connect));
    assert_eq!(outbound.step(WriteEvent::Connected), Ok(WriteAction::Write(vec![1])));
    assert_eq!(
        first.step(&mut inbound, &mut outbound, DispatchEvent::ClientGone),
        Ok(DispatchAction::Close(RelayError::ClientDisconnect))
    );

    let mut second = Dispatcher::open(&mut inbound, &mut outbound);
    assert_eq!(
        second.step(&mut inbound, &mut outbound, DispatchEvent::ClientData(vec![2])),
        Ok(DispatchAction::AwaitCompletion)
    );
    assert_eq!(outbound.step(WriteEvent::Written), Ok(WriteAction::Write(vec![2])));
    assert_eq!(outbound.completion(), Ok(None));
    assert_eq!(outbound.step(WriteEvent::Written), Ok(WriteAction::AwaitBuffer));
    assert_eq!(outbound.completion(), Ok(Some(true)));
    assert_eq!(outbound.completion(), Ok(None));
    assert_eq!(
        second.step(&mut inbound, &mut outbound, DispatchEvent::Completed(true)),
        Ok(DispatchAction::ReadClient)
    );
    assert_eq!(outbound.step(WriteEvent::Wake), Ok(WriteAction::Shutdown));
    assert_eq!(outbound.step(WriteEvent::Closed), Ok(WriteAction::Wait));
}

#[test]
fn opening_a_session_clears_what_outbound_still_held() {
    let mut inbound = ReadConnection::spawn();
    let mut outbound = WriteConnection::spawn();
    outbound.send(vec![9, 9]);
    outbound.start();
    assert_eq!(outbound.step(WriteEvent::Wake), Ok(WriteAction::Connect));
    assert_eq!(outbound.step(WriteEvent::Connected), Ok(WriteAction::Write(vec![9, 9])));
    assert_eq!(outbound.step(WriteEvent::Written), Ok(WriteAction::AwaitBuffer));
    outbound.send(vec![7]);
    let session = Dispatcher::open(&mut inbound, &mut outbound);
    assert_eq!(session.state(), DispatchState::Idle);
    assert_eq!(outbound.queued(), 0);
    assert_eq!(outbound.completion(), Ok(None));
    assert_eq!(outbound.step(WriteEvent::Wake), Ok(WriteAction::Shutdown));
}
