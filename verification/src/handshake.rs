//! The control handshake: the client/server exchange, over a TCP control
//! connection, that carries an experiment descriptor one way and a two-byte
//! acknowledgment back.
//!
//! Each side is a state machine stepped by events. The caller owns the
//! sockets, threads and clock: after every step it performs the returned
//! action and reports what happened as the next event. The machines hold
//! the protocol decisions — what to send, when sending is allowed, and
//! which failure each outcome is — so the ordering rules of the protocol
//! are facts about these transition functions:
//!
//! * a party that must listen before its peer connects never orders its
//!   descriptor or acknowledgment written until the readiness notification
//!   of its own session has been observed;
//! * a readiness wait that times out fails the run with
//!   `InitializationTimeout` and nothing is ever sent afterwards.

use vstd::prelude::*;

use crate::codec::{spec_decode, spec_encode, DecodeError};
use crate::netexp::{Host, NetExp, Side};
use crate::stats::Stats;

verus! {

/// How many seconds a party waits for a session's readiness notification
/// before giving up.
pub const READY_TIMEOUT_SECS: u64 = 5;

/// A handshake-level failure.
#[derive(Clone, Copy, Debug, PartialEq, Eq, Structural)]
pub enum HandshakeError {
    /// The wire bytes did not decode as a descriptor.
    Protocol(DecodeError),
    /// A socket operation failed.
    Io,
    /// The readiness notification did not arrive within the bounded wait.
    InitializationTimeout,
    /// The acknowledgment bytes were not "OK".
    UnexpectedAck,
    /// The background session task ended abnormally.
    ExecutionJoinFailure,
}

/// The two acknowledgment bytes: ASCII "OK".
pub open spec fn spec_ack() -> Seq<u8> {
    seq![79u8, 75u8]
}

/// The two acknowledgment bytes a server writes once its session is ready.
pub fn ack_bytes() -> (r: Vec<u8>)
    ensures
        r@ == spec_ack(),
{
    let mut out: Vec<u8> = Vec::with_capacity(2);
    out.push(79);
    out.push(75);
    proof {
        assert(out@ =~= spec_ack());
    }
    out
}

/// Whether two received bytes are the expected acknowledgment.
pub fn ack_is_ok(b0: u8, b1: u8) -> (r: bool)
    ensures
        r <==> seq![b0, b1] == spec_ack(),
{
    proof {
        assert(seq![b0, b1] =~= spec_ack() <==> b0 == 79 && b1 == 75);
    }
    b0 == 79 && b1 == 75
}

/// The point a client handshake has reached.
#[derive(Clone, Copy, Debug, PartialEq, Eq)]
pub enum ClientPhase {
    /// Control connection open; nothing sent yet.
    Start,
    /// Receiving role only: the client's own session was started in the
    /// background and its readiness notification is awaited. Nothing has
    /// been sent yet.
    AwaitingReady,
    /// The peer descriptor has been written; the two ack bytes are awaited.
    AwaitingAck,
    /// Transmitting role only: ack validated; the client's own session runs
    /// inline.
    RunningSession,
    /// Receiving role only: ack validated; the background session is being
    /// joined.
    JoiningSession,
    /// Terminal: the run succeeded with these session stats.
    Done(Stats),
    /// Terminal: the run failed.
    Failed(HandshakeError),
}

/// What the environment reports to a client machine.
#[derive(Clone, Copy, Debug, PartialEq, Eq)]
pub enum ClientEvent {
    /// Drive the first step; nothing has happened outside yet.
    Begin,
    /// The background session signalled readiness.
    Ready,
    /// The bounded wait for readiness elapsed without a notification.
    ReadyTimeout,
    /// The two acknowledgment bytes arrived.
    Ack(u8, u8),
    /// The client's own session finished with these stats.
    SessionFinished(Stats),
    /// The client's own session failed.
    SessionFailed,
    /// Joining the background session failed: its task ended abnormally.
    JoinFailed,
    /// A read or write on the control connection failed.
    IoFailed,
}

/// What a client machine instructs the environment to do next.
#[derive(Clone, Copy, Debug, PartialEq, Eq)]
pub enum ClientAction {
    /// Start the client's own session in the background and wait, bounded
    /// by `READY_TIMEOUT_SECS`, for its readiness notification (receiving
    /// role only).
    StartSessionAndWait,
    /// Write the 25 bytes of `ClientHandshake::descriptor_bytes` — the
    /// descriptor the server must execute — to the control connection, then
    /// read the two ack bytes.
    SendDescriptor,
    /// Run the client's own session to completion (transmitting role only).
    RunSession,
    /// Join the background session for its stats (receiving role only).
    JoinSession,
    /// Terminal: nothing further to do; the phase holds the outcome.
    Halt,
}

/// One step of the client machine: from a phase, on an event, to the next
/// phase and the action the environment must perform. An event that cannot
/// occur in the given phase leaves the phase unchanged and orders nothing.
pub open spec fn spec_client_step(exp: NetExp, phase: ClientPhase, ev: ClientEvent) -> (
    ClientPhase,
    ClientAction,
) {
    match (phase, ev) {
        (ClientPhase::Start, ClientEvent::Begin) => if exp.spec_params().side is Tx {
            (ClientPhase::AwaitingAck, ClientAction::SendDescriptor)
        } else {
            (ClientPhase::AwaitingReady, ClientAction::StartSessionAndWait)
        },
        (ClientPhase::AwaitingReady, ClientEvent::Ready) => (
            ClientPhase::AwaitingAck,
            ClientAction::SendDescriptor,
        ),
        (ClientPhase::AwaitingReady, ClientEvent::ReadyTimeout) => (
            ClientPhase::Failed(HandshakeError::InitializationTimeout),
            ClientAction::Halt,
        ),
        (ClientPhase::AwaitingAck, ClientEvent::Ack(b0, b1)) => if seq![b0, b1] == spec_ack() {
            if exp.spec_params().side is Tx {
                (ClientPhase::RunningSession, ClientAction::RunSession)
            } else {
                (ClientPhase::JoiningSession, ClientAction::JoinSession)
            }
        } else {
            (ClientPhase::Failed(HandshakeError::UnexpectedAck), ClientAction::Halt)
        },
        (ClientPhase::AwaitingAck, ClientEvent::IoFailed) => (
            ClientPhase::Failed(HandshakeError::Io),
            ClientAction::Halt,
        ),
        (ClientPhase::RunningSession, ClientEvent::SessionFinished(st)) => (
            ClientPhase::Done(st),
            ClientAction::Halt,
        ),
        (ClientPhase::RunningSession, ClientEvent::SessionFailed) => (
            ClientPhase::Failed(HandshakeError::Io),
            ClientAction::Halt,
        ),
        (ClientPhase::JoiningSession, ClientEvent::SessionFinished(st)) => (
            ClientPhase::Done(st),
            ClientAction::Halt,
        ),
        (ClientPhase::JoiningSession, ClientEvent::JoinFailed) => (
            ClientPhase::Failed(HandshakeError::ExecutionJoinFailure),
            ClientAction::Halt,
        ),
        (_, _) => (phase, ClientAction::Halt),
    }
}

/// The client half of one control handshake, driven by its environment one
/// event at a time.
pub struct ClientHandshake {
    exp: NetExp,
    phase: ClientPhase,
}

impl ClientHandshake {
    /// The client's own experiment: the one this party executes.
    pub closed spec fn spec_exp(self) -> NetExp {
        self.exp
    }

    /// The point the handshake has reached.
    pub closed spec fn spec_phase(self) -> ClientPhase {
        self.phase
    }

    /// A handshake for the client's own experiment, ready for its first
    /// step.
    pub fn new(exp: NetExp) -> (r: ClientHandshake)
        ensures
            r.spec_exp() == exp,
            r.spec_phase() is Start,
    {
        ClientHandshake { exp, phase: ClientPhase::Start }
    }

    /// The point the handshake has reached, for the environment to inspect.
    pub fn phase(&self) -> (r: &ClientPhase)
        ensures
            *r == self.spec_phase(),
    {
        &self.phase
    }

    /// The 25 bytes to write when the machine orders `SendDescriptor`: the
    /// wire encoding of the descriptor the server must execute, which is
    /// the client's own experiment with the role inverted.
    pub fn descriptor_bytes(&self) -> (r: Vec<u8>)
        ensures
            r@ == spec_encode(self.spec_exp().spec_inverted()),
    {
        self.exp.inverted().encode()
    }

    /// Performs one step: consumes the machine, takes the event the
    /// environment observed, and returns the successor machine and the
    /// action to perform next, exactly as `spec_client_step` maps them.
    pub fn step(self, ev: ClientEvent) -> (r: (ClientHandshake, ClientAction))
        ensures
            r.0.spec_exp() == self.spec_exp(),
            (r.0.spec_phase(), r.1) == spec_client_step(self.spec_exp(), self.spec_phase(), ev),
    {
        let side_is_tx = matches!(self.exp.params().side, Side::Tx);
        let (phase, action): (ClientPhase, ClientAction) = match (self.phase, ev) {
            (ClientPhase::Start, ClientEvent::Begin) => if side_is_tx {
                (ClientPhase::AwaitingAck, ClientAction::SendDescriptor)
            } else {
                (ClientPhase::AwaitingReady, ClientAction::StartSessionAndWait)
            },
            (ClientPhase::AwaitingReady, ClientEvent::Ready) => (
                ClientPhase::AwaitingAck,
                ClientAction::SendDescriptor,
            ),
            (ClientPhase::AwaitingReady, ClientEvent::ReadyTimeout) => (
                ClientPhase::Failed(HandshakeError::InitializationTimeout),
                ClientAction::Halt,
            ),
            (ClientPhase::AwaitingAck, ClientEvent::Ack(b0, b1)) => if ack_is_ok(b0, b1) {
                if side_is_tx {
                    (ClientPhase::RunningSession, ClientAction::RunSession)
                } else {
                    (ClientPhase::JoiningSession, ClientAction::JoinSession)
                }
            } else {
                (ClientPhase::Failed(HandshakeError::UnexpectedAck), ClientAction::Halt)
            },
            (ClientPhase::AwaitingAck, ClientEvent::IoFailed) => (
                ClientPhase::Failed(HandshakeError::Io),
                ClientAction::Halt,
            ),
            (ClientPhase::RunningSession, ClientEvent::SessionFinished(st)) => (
                ClientPhase::Done(st),
                ClientAction::Halt,
            ),
            (ClientPhase::RunningSession, ClientEvent::SessionFailed) => (
                ClientPhase::Failed(HandshakeError::Io),
                ClientAction::Halt,
            ),
            (ClientPhase::JoiningSession, ClientEvent::SessionFinished(st)) => (
                ClientPhase::Done(st),
                ClientAction::Halt,
            ),
            (ClientPhase::JoiningSession, ClientEvent::JoinFailed) => (
                ClientPhase::Failed(HandshakeError::ExecutionJoinFailure),
                ClientAction::Halt,
            ),
            (p, _) => (p, ClientAction::Halt),
        };
        (ClientHandshake { exp: self.exp, phase }, action)
    }
}

/// A client that plays the receiving role orders its descriptor written
/// only by the very step that consumes the readiness notification: until
/// its own session is listening, nothing reaches the control connection.
pub proof fn lemma_client_send_needs_ready(exp: NetExp, phase: ClientPhase, ev: ClientEvent)
    requires
        exp.spec_params().side is Rx,
        spec_client_step(exp, phase, ev).1 is SendDescriptor,
    ensures
        ev is Ready,
        phase is AwaitingReady,
{
}

/// A readiness wait that times out fails the run with
/// `InitializationTimeout`, and the step orders nothing sent.
pub proof fn lemma_client_timeout(exp: NetExp)
    ensures
        spec_client_step(exp, ClientPhase::AwaitingReady, ClientEvent::ReadyTimeout) == (
            ClientPhase::Failed(HandshakeError::InitializationTimeout),
            ClientAction::Halt,
        ),
{
}

/// Terminal phases absorb: once a client run has succeeded or failed, no
/// further event changes the phase or orders anything sent.
pub proof fn lemma_client_terminal(exp: NetExp, phase: ClientPhase, ev: ClientEvent)
    requires
        phase is Done || phase is Failed,
    ensures
        spec_client_step(exp, phase, ev) == (phase, ClientAction::Halt),
{
}

/// The client machine run over a whole event sequence, from its first step.
pub open spec fn spec_client_run(exp: NetExp, events: Seq<ClientEvent>) -> ClientPhase
    decreases events.len(),
{
    if events.len() == 0 {
        ClientPhase::Start
    } else {
        spec_client_step(exp, spec_client_run(exp, events.drop_last()), events.last()).0
    }
}

/// Over any event sequence, a client in the receiving role sends its
/// descriptor only at a step whose event is the readiness notification: a
/// notification withheld for the whole sequence means nothing was ever
/// ordered written to the control connection.
pub proof fn lemma_client_no_send_before_ready(exp: NetExp, events: Seq<ClientEvent>, i: int)
    requires
        exp.spec_params().side is Rx,
        0 <= i < events.len(),
        spec_client_step(
            exp,
            spec_client_run(exp, events.take(i)),
            events[i],
        ).1 is SendDescriptor,
    ensures
        events[i] is Ready,
        exists|j: int| 0 <= j <= i && events[j] is Ready,
{
    lemma_client_send_needs_ready(exp, spec_client_run(exp, events.take(i)), events[i]);
    assert(events[i] is Ready);
}

/// The point a server's handling of one accepted connection has reached.
#[derive(Clone, Copy, Debug, PartialEq, Eq)]
pub enum ServerPhase {
    /// Connection accepted; the 25 descriptor bytes are being read.
    AwaitingDescriptor,
    /// The session was started in the background and its readiness
    /// notification is awaited. No ack has been sent yet.
    AwaitingReady,
    /// Readiness observed; the ack is being written.
    SendingAck,
    /// Ack written; the background session is being joined.
    JoiningSession,
    /// Terminal: this connection's experiment finished with these stats.
    Done(Stats),
    /// Terminal: handling this connection failed. Only this connection: the
    /// accept loop goes on.
    Failed(HandshakeError),
}

/// What the environment reports to a server machine.
#[derive(Clone, Debug, PartialEq, Eq)]
pub enum ServerEvent {
    /// The 25 descriptor bytes arrived, together with the observed peer
    /// address of the control connection.
    Descriptor(Vec<u8>, Host),
    /// The background session signalled readiness.
    Ready,
    /// The bounded wait for readiness elapsed without a notification.
    ReadyTimeout,
    /// The two ack bytes were written.
    AckSent,
    /// The background session finished with these stats.
    SessionFinished(Stats),
    /// Joining the background session failed: its task ended abnormally.
    JoinFailed,
    /// A read or write on the control connection failed.
    IoFailed,
}

/// What a server machine instructs the environment to do next.
#[derive(Clone, Copy, Debug, PartialEq, Eq)]
pub enum ServerAction {
    /// Read exactly 25 bytes from the control connection and note the
    /// connection's peer address.
    ReadDescriptor,
    /// Start a session for the carried descriptor in the background and
    /// wait, bounded by `READY_TIMEOUT_SECS`, for its readiness
    /// notification. The descriptor's host is already the observed peer
    /// address, never the one received over the wire.
    StartSession(NetExp),
    /// Write the two bytes of `ack_bytes` to the control connection.
    SendAck,
    /// Join the background session for its stats.
    JoinSession,
    /// Terminal for this connection: close it and accept the next client;
    /// the phase holds the outcome.
    Halt,
}

/// One step of the server machine for one accepted connection. The
/// descriptor event decodes the received bytes and overwrites the decoded
/// host with the observed peer address before anything is executed. An
/// event that cannot occur in the given phase leaves the phase unchanged
/// and orders nothing.
pub open spec fn spec_server_step(phase: ServerPhase, ev: ServerEvent) -> (
    ServerPhase,
    ServerAction,
) {
    match (phase, ev) {
        (ServerPhase::AwaitingDescriptor, ServerEvent::Descriptor(bytes, peer)) => match
            spec_decode(bytes@) {
            Ok(exp) => (ServerPhase::AwaitingReady, ServerAction::StartSession(exp.spec_with_host(peer))),
            Err(e) => (ServerPhase::Failed(HandshakeError::Protocol(e)), ServerAction::Halt),
        },
        (ServerPhase::AwaitingDescriptor, ServerEvent::IoFailed) => (
            ServerPhase::Failed(HandshakeError::Io),
            ServerAction::Halt,
        ),
        (ServerPhase::AwaitingReady, ServerEvent::Ready) => (
            ServerPhase::SendingAck,
            ServerAction::SendAck,
        ),
        (ServerPhase::AwaitingReady, ServerEvent::ReadyTimeout) => (
            ServerPhase::Failed(HandshakeError::InitializationTimeout),
            ServerAction::Halt,
        ),
        (ServerPhase::SendingAck, ServerEvent::AckSent) => (
            ServerPhase::JoiningSession,
            ServerAction::JoinSession,
        ),
        (ServerPhase::SendingAck, ServerEvent::IoFailed) => (
            ServerPhase::Failed(HandshakeError::Io),
            ServerAction::Halt,
        ),
        (ServerPhase::JoiningSession, ServerEvent::SessionFinished(st)) => (
            ServerPhase::Done(st),
            ServerAction::Halt,
        ),
        (ServerPhase::JoiningSession, ServerEvent::JoinFailed) => (
            ServerPhase::Failed(HandshakeError::ExecutionJoinFailure),
            ServerAction::Halt,
        ),
        (_, _) => (phase, ServerAction::Halt),
    }
}

/// The server half of one control handshake: the handling of one accepted
/// connection, driven by its environment one event at a time.
pub struct ServerHandshake {
    phase: ServerPhase,
}

impl ServerHandshake {
    /// The point this connection's handling has reached.
    pub closed spec fn spec_phase(self) -> ServerPhase {
        self.phase
    }

    /// A handshake for one freshly accepted control connection: the first
    /// action is always to read the descriptor bytes.
    pub fn new() -> (r: (ServerHandshake, ServerAction))
        ensures
            r.0.spec_phase() is AwaitingDescriptor,
            r.1 == ServerAction::ReadDescriptor,
    {
        (ServerHandshake { phase: ServerPhase::AwaitingDescriptor }, ServerAction::ReadDescriptor)
    }

    /// The point this connection's handling has reached, for the
    /// environment to inspect.
    pub fn phase(&self) -> (r: &ServerPhase)
        ensures
            *r == self.spec_phase(),
    {
        &self.phase
    }

    /// Performs one step: consumes the machine, takes the event the
    /// environment observed, and returns the successor machine and the
    /// action to perform next, exactly as `spec_server_step` maps them.
    pub fn step(self, ev: ServerEvent) -> (r: (ServerHandshake, ServerAction))
        ensures
            (r.0.spec_phase(), r.1) == spec_server_step(self.spec_phase(), ev),
    {
        let (phase, action): (ServerPhase, ServerAction) = match (self.phase, ev) {
            (ServerPhase::AwaitingDescriptor, ServerEvent::Descriptor(bytes, peer)) => match
                NetExp::deserialize(bytes.as_slice()) {
                Ok(exp) => (
                    ServerPhase::AwaitingReady,
                    ServerAction::StartSession(exp.with_host(peer)),
                ),
                Err(e) => (ServerPhase::Failed(HandshakeError::Protocol(e)), ServerAction::Halt),
            },
            (ServerPhase::AwaitingDescriptor, ServerEvent::IoFailed) => (
                ServerPhase::Failed(HandshakeError::Io),
                ServerAction::Halt,
            ),
            (ServerPhase::AwaitingReady, ServerEvent::Ready) => (
                ServerPhase::SendingAck,
                ServerAction::SendAck,
            ),
            (ServerPhase::AwaitingReady, ServerEvent::ReadyTimeout) => (
                ServerPhase::Failed(HandshakeError::InitializationTimeout),
                ServerAction::Halt,
            ),
            (ServerPhase::SendingAck, ServerEvent::AckSent) => (
                ServerPhase::JoiningSession,
                ServerAction::JoinSession,
            ),
            (ServerPhase::SendingAck, ServerEvent::IoFailed) => (
                ServerPhase::Failed(HandshakeError::Io),
                ServerAction::Halt,
            ),
            (ServerPhase::JoiningSession, ServerEvent::SessionFinished(st)) => (
                ServerPhase::Done(st),
                ServerAction::Halt,
            ),
            (ServerPhase::JoiningSession, ServerEvent::JoinFailed) => (
                ServerPhase::Failed(HandshakeError::ExecutionJoinFailure),
                ServerAction::Halt,
            ),
            (p, _) => (p, ServerAction::Halt),
        };
        (ServerHandshake { phase }, action)
    }
}

/// A server orders its acknowledgment written only by the very step that
/// consumes the readiness notification: until the session it started for
/// this client is listening, no ack reaches the control connection.
pub proof fn lemma_server_ack_needs_ready(phase: ServerPhase, ev: ServerEvent)
    requires
        spec_server_step(phase, ev).1 is SendAck,
    ensures
        ev is Ready,
        phase is AwaitingReady,
{
}

/// A readiness wait that times out fails this connection's handling with
/// `InitializationTimeout`, and the step orders nothing sent.
pub proof fn lemma_server_timeout()
    ensures
        spec_server_step(ServerPhase::AwaitingReady, ServerEvent::ReadyTimeout) == (
            ServerPhase::Failed(HandshakeError::InitializationTimeout),
            ServerAction::Halt,
        ),
{
}

/// Terminal phases absorb: once one connection's handling has succeeded or
/// failed, no further event changes its phase or orders anything; every
/// failure is confined to that connection, and the accept loop goes on
/// with a fresh machine for the next client.
pub proof fn lemma_server_terminal(phase: ServerPhase, ev: ServerEvent)
    requires
        phase is Done || phase is Failed,
    ensures
        spec_server_step(phase, ev) == (phase, ServerAction::Halt),
{
}

/// The server machine run over a whole event sequence for one accepted
/// connection, from its first step.
pub open spec fn spec_server_run(events: Seq<ServerEvent>) -> ServerPhase
    decreases events.len(),
{
    if events.len() == 0 {
        ServerPhase::AwaitingDescriptor
    } else {
        spec_server_step(spec_server_run(events.drop_last()), events.last()).0
    }
}

/// Over any event sequence, a server orders its acknowledgment written
/// only at a step whose event is the readiness notification: a
/// notification withheld for the whole sequence means no ack was ever
/// ordered written to the control connection.
pub proof fn lemma_server_no_ack_before_ready(events: Seq<ServerEvent>, i: int)
    requires
        0 <= i < events.len(),
        spec_server_step(spec_server_run(events.take(i)), events[i]).1 is SendAck,
    ensures
        events[i] is Ready,
        exists|j: int| 0 <= j <= i && events[j] is Ready,
{
    lemma_server_ack_needs_ready(spec_server_run(events.take(i)), events[i]);
    assert(events[i] is Ready);
}

/// A session the server is ordered to start never executes the host
/// received over the wire: its host is the observed peer address of the
/// control connection, and everything else is what the wire bytes decoded
/// to.
pub proof fn lemma_server_host_overwritten(bytes: Vec<u8>, peer: Host)
    requires
        spec_decode(bytes@) is Ok,
    ensures
        spec_server_step(
            ServerPhase::AwaitingDescriptor,
            ServerEvent::Descriptor(bytes, peer),
        ).1 matches ServerAction::StartSession(exp) && exp == spec_decode(
            bytes@,
        )->Ok_0.spec_with_host(peer),
{
}

} // verus!
