//! The client connector's decisions: connect, start the daemon once if it
//! is not there, send one request, take one response.
//!
//! The connector itself performs the actions and reports what came of them;
//! here is what it does next.

use crate::ipc::FRAME_CAPACITY;
use vstd::prelude::*;

verus! {

/// How long the connector waits, in milliseconds, between starting the
/// daemon and connecting again.
pub const GRACE_MILLIS: u64 = 500;

/// The argument with which the executable is started as the daemon.
pub fn daemon_subcommand() -> (name: &'static str)
    ensures
        name@ == "daemon"@,
{
    "daemon"
}

/// Why a request could not be completed.
#[derive(Clone, Copy, Debug, PartialEq, Eq, Structural)]
pub enum ClientError {
    /// The daemon could not be started.
    SpawnFailed,
    /// The daemon was started and still cannot be reached.
    DaemonUnreachable,
    /// The request could not be written.
    SendFailed,
    /// The response could not be read.
    ReceiveFailed,
    /// The daemon closed the connection without replying.
    NoResponse,
    /// The response does not decode.
    ProtocolDecodeFailed,
    /// An event was reported that the pending action cannot produce.
    OutOfSequence,
}

/// Where the connector stands: which action's result it is waiting for.
#[derive(Clone, Copy, Debug, PartialEq, Eq, Structural)]
pub enum ClientState {
    /// The first connection attempt is under way.
    FirstConnect,
    /// The daemon is being started.
    Spawning,
    /// The grace period after starting the daemon is running.
    GracePeriod,
    /// The second, and last, connection attempt is under way.
    SecondConnect,
    /// The request is being written.
    Sending,
    /// The response is being read.
    Receiving,
    /// The response is being decoded.
    Decoding,
    /// The exchange is over, with a response or with an error.
    Finished,
}

/// What came of the action the connector performed last.
#[derive(Clone, Copy, Debug, PartialEq, Eq, Structural)]
pub enum ClientEvent {
    Connected,
    ConnectFailed,
    Spawned,
    SpawnFailed,
    GraceElapsed,
    Sent,
    SendFailed,
    /// A read returned `len` bytes.
    Received { len: usize },
    ReceiveFailed,
    Decoded,
    DecodeFailed,
}

/// What the connector does next.
#[derive(Clone, Copy, Debug, PartialEq, Eq, Structural)]
pub enum ClientAction {
    /// Connect to the channel address.
    Connect,
    /// Start the daemon as a detached process.
    SpawnDaemon,
    /// Wait for the given number of milliseconds.
    Wait { millis: u64 },
    /// Write the encoded request.
    Send,
    /// Read one response frame of at most `capacity` bytes.
    Receive { capacity: usize },
    /// Decode the first `len` bytes that were read.
    Decode { len: usize },
    /// Hand the decoded response to the caller.
    Deliver,
    /// Give up with the given error.
    Fail(ClientError),
}

impl ClientState {
    /// Position of the state along an exchange; every step moves forward.
    pub open spec fn rank(self) -> nat {
        match self {
            ClientState::FirstConnect => 0,
            ClientState::Spawning => 1,
            ClientState::GracePeriod => 2,
            ClientState::SecondConnect => 3,
            ClientState::Sending => 4,
            ClientState::Receiving => 5,
            ClientState::Decoding => 6,
            ClientState::Finished => 7,
        }
    }

    /// The state that follows `self` on `event`, with the action to perform.
    pub open spec fn next(self, event: ClientEvent) -> (ClientState, ClientAction) {
        match (self, event) {
            (ClientState::FirstConnect, ClientEvent::Connected) => (ClientState::Sending, ClientAction::Send),
            (ClientState::FirstConnect, ClientEvent::ConnectFailed) => (
                ClientState::Spawning,
                ClientAction::SpawnDaemon,
            ),
            (ClientState::Spawning, ClientEvent::Spawned) => (
                ClientState::GracePeriod,
                ClientAction::Wait { millis: GRACE_MILLIS },
            ),
            (ClientState::Spawning, ClientEvent::SpawnFailed) => (
                ClientState::Finished,
                ClientAction::Fail(ClientError::SpawnFailed),
            ),
            (ClientState::GracePeriod, ClientEvent::GraceElapsed) => (
                ClientState::SecondConnect,
                ClientAction::Connect,
            ),
            (ClientState::SecondConnect, ClientEvent::Connected) => (ClientState::Sending, ClientAction::Send),
            (ClientState::SecondConnect, ClientEvent::ConnectFailed) => (
                ClientState::Finished,
                ClientAction::Fail(ClientError::DaemonUnreachable),
            ),
            (ClientState::Sending, ClientEvent::Sent) => (
                ClientState::Receiving,
                ClientAction::Receive { capacity: FRAME_CAPACITY },
            ),
            (ClientState::Sending, ClientEvent::SendFailed) => (
                ClientState::Finished,
                ClientAction::Fail(ClientError::SendFailed),
            ),
            (ClientState::Receiving, ClientEvent::Received { len }) => if len == 0 {
                (ClientState::Finished, ClientAction::Fail(ClientError::NoResponse))
            } else {
                (ClientState::Decoding, ClientAction::Decode { len })
            },
            (ClientState::Receiving, ClientEvent::ReceiveFailed) => (
                ClientState::Finished,
                ClientAction::Fail(ClientError::ReceiveFailed),
            ),
            (ClientState::Decoding, ClientEvent::Decoded) => (ClientState::Finished, ClientAction::Deliver),
            (ClientState::Decoding, ClientEvent::DecodeFailed) => (
                ClientState::Finished,
                ClientAction::Fail(ClientError::ProtocolDecodeFailed),
            ),
            _ => (ClientState::Finished, ClientAction::Fail(ClientError::OutOfSequence)),
        }
    }

    /// Begins an exchange: the state to start from and the first action.
    pub fn begin() -> (first: (ClientState, ClientAction))
        ensures
            first == (ClientState::FirstConnect, ClientAction::Connect),
    {
        (ClientState::FirstConnect, ClientAction::Connect)
    }

    /// Whether the exchange is over.
    pub fn is_finished(&self) -> (finished: bool)
        ensures
            finished == (*self == ClientState::Finished),
    {
        match self {
            ClientState::Finished => true,
            _ => false,
        }
    }

    /// Takes the result of the pending action and says what to do next.
    pub fn step(self, event: ClientEvent) -> (following: (ClientState, ClientAction))
        ensures
            following == self.next(event),
    {
        match self {
            ClientState::FirstConnect => match event {
                ClientEvent::Connected => (ClientState::Sending, ClientAction::Send),
                ClientEvent::ConnectFailed => (ClientState::Spawning, ClientAction::SpawnDaemon),
                _ => out_of_sequence(),
            },
            ClientState::Spawning => match event {
                ClientEvent::Spawned => (ClientState::GracePeriod, ClientAction::Wait { millis: GRACE_MILLIS }),
                ClientEvent::SpawnFailed => (ClientState::Finished, ClientAction::Fail(ClientError::SpawnFailed)),
                _ => out_of_sequence(),
            },
            ClientState::GracePeriod => match event {
                ClientEvent::GraceElapsed => (ClientState::SecondConnect, ClientAction::Connect),
                _ => out_of_sequence(),
            },
            ClientState::SecondConnect => match event {
                ClientEvent::Connected => (ClientState::Sending, ClientAction::Send),
                ClientEvent::ConnectFailed => (
                    ClientState::Finished,
                    ClientAction::Fail(ClientError::DaemonUnreachable),
                ),
                _ => out_of_sequence(),
            },
            ClientState::Sending => match event {
                ClientEvent::Sent => (ClientState::Receiving, ClientAction::Receive { capacity: FRAME_CAPACITY }),
                ClientEvent::SendFailed => (ClientState::Finished, ClientAction::Fail(ClientError::SendFailed)),
                _ => out_of_sequence(),
            },
            ClientState::Receiving => match event {
                ClientEvent::Received { len } => if len == 0 {
                    (ClientState::Finished, ClientAction::Fail(ClientError::NoResponse))
                } else {
                    (ClientState::Decoding, ClientAction::Decode { len })
                },
                ClientEvent::ReceiveFailed => (
                    ClientState::Finished,
                    ClientAction::Fail(ClientError::ReceiveFailed),
                ),
                _ => out_of_sequence(),
            },
            ClientState::Decoding => match event {
                ClientEvent::Decoded => (ClientState::Finished, ClientAction::Deliver),
                ClientEvent::DecodeFailed => (
                    ClientState::Finished,
                    ClientAction::Fail(ClientError::ProtocolDecodeFailed),
                ),
                _ => out_of_sequence(),
            },
            ClientState::Finished => out_of_sequence(),
        }
    }
}

/// The end of an exchange in which an event came that the pending action
/// cannot produce.
fn out_of_sequence() -> (following: (ClientState, ClientAction))
    ensures
        following == (ClientState::Finished, ClientAction::Fail(ClientError::OutOfSequence)),
{
    (ClientState::Finished, ClientAction::Fail(ClientError::OutOfSequence))
}

impl ClientError {
    /// Text shown to the user for this error.
    pub open spec fn message_text(self) -> Seq<char> {
        match self {
            ClientError::SpawnFailed => "Could not start the daemon"@,
            ClientError::DaemonUnreachable => "Daemon unreachable after starting it"@,
            ClientError::SendFailed => "Could not send the request"@,
            ClientError::ReceiveFailed => "Could not read the response"@,
            ClientError::NoResponse => "Daemon closed connection without response"@,
            ClientError::ProtocolDecodeFailed => "Could not decode the response"@,
            ClientError::OutOfSequence => "Unexpected event during the exchange"@,
        }
    }

    /// Text shown to the user for this error.
    pub fn message(&self) -> (text: &'static str)
        ensures
            text@ == self.message_text(),
    {
        match self {
            ClientError::SpawnFailed => "Could not start the daemon",
            ClientError::DaemonUnreachable => "Daemon unreachable after starting it",
            ClientError::SendFailed => "Could not send the request",
            ClientError::ReceiveFailed => "Could not read the response",
            ClientError::NoResponse => "Daemon closed connection without response",
            ClientError::ProtocolDecodeFailed => "Could not decode the response",
            ClientError::OutOfSequence => "Unexpected event during the exchange",
        }
    }
}

/// Every step moves the exchange forward, so no state is visited twice and
/// an exchange ends after at most seven steps.
pub proof fn lemma_step_advances(state: ClientState, event: ClientEvent)
    ensures
        state != ClientState::Finished ==> state.next(event).0.rank() > state.rank(),
        state.next(event).0.rank() <= 7,
        state.next(event).0 == ClientState::Finished <==> (state.next(event).1 is Deliver || state.next(
            event,
        ).1 is Fail),
{
}

/// The daemon is started only when the first connection attempt fails, and
/// since no step leads back to that attempt, at most once per exchange. The
/// connection is attempted again only after the grace period, and when that
/// attempt fails too the exchange ends with `DaemonUnreachable`.
pub proof fn lemma_one_spawn_one_retry(state: ClientState, event: ClientEvent)
    ensures
        state.next(event).1 is SpawnDaemon <==> state == ClientState::FirstConnect && event
            == ClientEvent::ConnectFailed,
        state.next(event).0 != ClientState::FirstConnect,
        state.next(event).1 is Connect <==> state == ClientState::GracePeriod && event
            == ClientEvent::GraceElapsed,
        state.next(event).1 is Wait ==> state.next(event).1 == (ClientAction::Wait { millis: 500 }),
        state.next(event).1 == ClientAction::Fail(ClientError::DaemonUnreachable) <==> state
            == ClientState::SecondConnect && event == ClientEvent::ConnectFailed,
{
}

/// A response is handed to the caller only after a non-empty frame was read
/// and decoded; an empty read ends the exchange with `NoResponse`.
pub proof fn lemma_delivery_needs_a_frame(state: ClientState, event: ClientEvent)
    ensures
        state.next(event).1 is Deliver <==> state == ClientState::Decoding && event == ClientEvent::Decoded,
        state.next(event).0 == ClientState::Decoding <==> state == ClientState::Receiving && (event is Received
            && event->len > 0),
        state.next(event).1 == ClientAction::Fail(ClientError::NoResponse) <==> state == ClientState::Receiving
            && event == (ClientEvent::Received { len: 0 }),
{
}

} // verus!
