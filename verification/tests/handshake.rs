use perfy::codec::DecodeError;
use perfy::handshake::{
    ack_bytes, ClientAction, ClientEvent, ClientHandshake, ClientPhase, HandshakeError,
    ServerAction, ServerEvent, ServerHandshake, ServerPhase, READY_TIMEOUT_SECS,
};
use perfy::netexp::{Host, NetExp, NetExpParams, Side};
use perfy::stats::Stats;

fn params(side: Side) -> NetExpParams {
    NetExpParams {
        host: Host::V4(0x7f000001),
        port: 5201,
        side,
        parallel: 1,
        duration: 3,
    }
}

#[test]
fn test_ack_bytes_are_ok() {
    assert_eq!(ack_bytes(), b"OK".to_vec());
    assert_eq!(READY_TIMEOUT_SECS, 5);
}

#[test]
fn test_client_tx_happy_path() {
    let exp = NetExp::Tcp(params(Side::Tx));
    let hs = ClientHandshake::new(exp);

    let (hs, action) = hs.step(ClientEvent::Begin);
    assert_eq!(action, ClientAction::SendDescriptor);
    // the bytes sent are the inverted descriptor, so the server receives Rx
    let sent = hs.descriptor_bytes();
    let server_sees = NetExp::deserialize(&sent).unwrap();
    assert_eq!(server_sees.params().side, Side::Rx);

    let (hs, action) = hs.step(ClientEvent::Ack(b'O', b'K'));
    assert_eq!(action, ClientAction::RunSession);

    let stats = Stats::new().with_bandwidth(1234);
    let (hs, action) = hs.step(ClientEvent::SessionFinished(stats));
    assert_eq!(action, ClientAction::Halt);
    assert_eq!(*hs.phase(), ClientPhase::Done(stats));
}

#[test]
fn test_client_rx_sends_nothing_before_ready() {
    // the receiving client must start its own session and observe readiness
    // before any descriptor byte goes out
    let exp = NetExp::Tcp(params(Side::Rx));
    let hs = ClientHandshake::new(exp);

    let (hs, action) = hs.step(ClientEvent::Begin);
    assert_eq!(action, ClientAction::StartSessionAndWait);

    // a stray ack before readiness orders nothing sent
    let (hs, action) = hs.step(ClientEvent::Ack(b'O', b'K'));
    assert_eq!(action, ClientAction::Halt);
    assert_eq!(*hs.phase(), ClientPhase::AwaitingReady);

    // only the readiness notification triggers the send
    let (hs, action) = hs.step(ClientEvent::Ready);
    assert_eq!(action, ClientAction::SendDescriptor);

    let (hs, action) = hs.step(ClientEvent::Ack(b'O', b'K'));
    assert_eq!(action, ClientAction::JoinSession);

    let stats = Stats::new();
    let (hs, action) = hs.step(ClientEvent::SessionFinished(stats));
    assert_eq!(action, ClientAction::Halt);
    assert_eq!(*hs.phase(), ClientPhase::Done(stats));
}

#[test]
fn test_client_timeout_aborts_without_sending() {
    let exp = NetExp::Udp(params(Side::Rx));
    let hs = ClientHandshake::new(exp);

    let (hs, action) = hs.step(ClientEvent::Begin);
    assert_eq!(action, ClientAction::StartSessionAndWait);

    let (hs, action) = hs.step(ClientEvent::ReadyTimeout);
    assert_eq!(action, ClientAction::Halt);
    assert_eq!(
        *hs.phase(),
        ClientPhase::Failed(HandshakeError::InitializationTimeout)
    );

    // terminal: even a late readiness notification orders nothing
    let (hs, action) = hs.step(ClientEvent::Ready);
    assert_eq!(action, ClientAction::Halt);
    assert_eq!(
        *hs.phase(),
        ClientPhase::Failed(HandshakeError::InitializationTimeout)
    );
}

#[test]
fn test_client_rejects_bad_ack() {
    let exp = NetExp::Tcp(params(Side::Tx));
    let hs = ClientHandshake::new(exp);
    let (hs, _) = hs.step(ClientEvent::Begin);
    let (hs, action) = hs.step(ClientEvent::Ack(b'N', b'O'));
    assert_eq!(action, ClientAction::Halt);
    assert_eq!(*hs.phase(), ClientPhase::Failed(HandshakeError::UnexpectedAck));
}

#[test]
fn test_client_io_failure() {
    let exp = NetExp::Tcp(params(Side::Tx));
    let hs = ClientHandshake::new(exp);
    let (hs, _) = hs.step(ClientEvent::Begin);
    let (hs, action) = hs.step(ClientEvent::IoFailed);
    assert_eq!(action, ClientAction::Halt);
    assert_eq!(*hs.phase(), ClientPhase::Failed(HandshakeError::Io));
}

#[test]
fn test_client_join_failure() {
    let exp = NetExp::Tcp(params(Side::Rx));
    let hs = ClientHandshake::new(exp);
    let (hs, _) = hs.step(ClientEvent::Begin);
    let (hs, _) = hs.step(ClientEvent::Ready);
    let (hs, _) = hs.step(ClientEvent::Ack(b'O', b'K'));
    let (hs, action) = hs.step(ClientEvent::JoinFailed);
    assert_eq!(action, ClientAction::Halt);
    assert_eq!(
        *hs.phase(),
        ClientPhase::Failed(HandshakeError::ExecutionJoinFailure)
    );
}

fn wire_descriptor(side: Side) -> Vec<u8> {
    NetExp::Tcp(NetExpParams {
        host: Host::V4(0x01020304), // what the client claims; never trusted
        port: 5201,
        side,
        parallel: 1,
        duration: 3,
    })
    .encode()
}

#[test]
fn test_server_happy_path_overwrites_host() {
    let (hs, action) = ServerHandshake::new();
    assert_eq!(action, ServerAction::ReadDescriptor);

    let peer = Host::V4(0x7f000001); // the observed address of the connection
    let (hs, action) = hs.step(ServerEvent::Descriptor(wire_descriptor(Side::Tx), peer));
    match action {
        ServerAction::StartSession(exp) => {
            assert_eq!(exp.params().host, peer);
            assert_eq!(exp.params().side, Side::Tx);
            assert_eq!(exp.params().port, 5201);
        }
        other => panic!("expected StartSession, got {:?}", other),
    }

    // no ack before the session's readiness notification
    let (hs, action) = hs.step(ServerEvent::Ready);
    assert_eq!(action, ServerAction::SendAck);

    let (hs, action) = hs.step(ServerEvent::AckSent);
    assert_eq!(action, ServerAction::JoinSession);

    let stats = Stats::new().with_bandwidth(99);
    let (hs, action) = hs.step(ServerEvent::SessionFinished(stats));
    assert_eq!(action, ServerAction::Halt);
    assert_eq!(*hs.phase(), ServerPhase::Done(stats));
}

#[test]
fn test_server_timeout_sends_no_ack() {
    let (hs, _) = ServerHandshake::new();
    let peer = Host::V4(0x7f000001);
    let (hs, _) = hs.step(ServerEvent::Descriptor(wire_descriptor(Side::Rx), peer));
    let (hs, action) = hs.step(ServerEvent::ReadyTimeout);
    assert_eq!(action, ServerAction::Halt);
    assert_eq!(
        *hs.phase(),
        ServerPhase::Failed(HandshakeError::InitializationTimeout)
    );
}

#[test]
fn test_server_rejects_malformed_descriptor() {
    let (hs, _) = ServerHandshake::new();
    let mut bad = wire_descriptor(Side::Tx);
    bad[0] = 200;
    let (hs, action) = hs.step(ServerEvent::Descriptor(bad, Host::V4(0x7f000001)));
    assert_eq!(action, ServerAction::Halt);
    assert_eq!(
        *hs.phase(),
        ServerPhase::Failed(HandshakeError::Protocol(DecodeError::InvalidTransportTag))
    );
}

#[test]
fn test_server_survives_failed_client_then_serves_next() {
    // first client disconnects mid-handshake: the failure is terminal for
    // that connection's machine only
    let (hs, _) = ServerHandshake::new();
    let (hs, action) = hs.step(ServerEvent::IoFailed);
    assert_eq!(action, ServerAction::Halt);
    assert_eq!(*hs.phase(), ServerPhase::Failed(HandshakeError::Io));

    // the accept loop starts a fresh machine; the second client succeeds
    let (hs, _) = ServerHandshake::new();
    let (hs, action) = hs.step(ServerEvent::Descriptor(
        wire_descriptor(Side::Tx),
        Host::V4(0x7f000001),
    ));
    assert!(matches!(action, ServerAction::StartSession(_)));
    let (hs, action) = hs.step(ServerEvent::Ready);
    assert_eq!(action, ServerAction::SendAck);
    let (hs, _) = hs.step(ServerEvent::AckSent);
    let (hs, action) = hs.step(ServerEvent::SessionFinished(Stats::new()));
    assert_eq!(action, ServerAction::Halt);
    assert_eq!(*hs.phase(), ServerPhase::Done(Stats::new()));
}
