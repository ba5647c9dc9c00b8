//! What can go wrong on a connection.

use vstd::prelude::*;

verus! {

/// An error of the WebSocket protocol as `fastwebsockets` reports it. The
/// library passes it on and never looks inside.
#[verifier::external_type_specification]
#[verifier::external_body]
pub struct ExProtocolError(fastwebsockets::WebSocketError);

/// What kept `bincode` from turning a packet into bytes, or bytes into a
/// packet. The library passes it on and never looks inside.
#[verifier::external_type_specification]
#[verifier::external_body]
pub struct ExCodecErrorKind(bincode::ErrorKind);

/// Why a connection could not be made or kept.
#[derive(Debug)]
pub enum ConnectionError {
    /// The address to connect to is not a URI.
    InvalidUri,
    /// The address to connect to names no authority.
    NoHostName,
    /// The authority of the address to connect to has an empty host.
    EmptyHostName,
    /// The handshake holds no readable `Sec-WebSocket-Key`.
    MissingSecWebSocketKey,
    /// The `Sec-WebSocket-Key` of the handshake is not a token.
    InvalidValue,
    /// The WebSocket below failed.
    Protocol(fastwebsockets::WebSocketError),
}

/// Why a packet was not sent.
#[derive(Debug)]
pub enum SendError {
    /// The packet could not be turned into bytes.
    Serialize(bincode::Error),
    /// Nobody takes frames off the channel any more.
    ChannelClosed,
}

/// Why no packet was received.
#[derive(Debug)]
pub enum RecvError {
    /// The payload is not a packet.
    Deserialize(bincode::Error),
    /// No packet will come any more.
    ChannelClosed,
    /// The connection failed.
    WebSocket(ConnectionError),
}

impl SendError {
    /// The error in words.
    pub open spec fn spec_message(&self) -> Seq<char> {
        match self {
            SendError::Serialize(_) => "serialization failed"@,
            SendError::ChannelClosed => "channel closed"@,
        }
    }

    /// Says in words what happened.
    pub fn message(&self) -> (text: String)
        ensures
            text@ == self.spec_message(),
    {
        match self {
            SendError::Serialize(_) => "serialization failed".to_owned(),
            SendError::ChannelClosed => "channel closed".to_owned(),
        }
    }
}

impl RecvError {
    /// The error in words.
    pub open spec fn spec_message(&self) -> Seq<char> {
        match self {
            RecvError::Deserialize(_) => "deserialization failed"@,
            RecvError::ChannelClosed => "channel closed"@,
            RecvError::WebSocket(_) => "websocket error"@,
        }
    }

    /// Says in words what happened.
    pub fn message(&self) -> (text: String)
        ensures
            text@ == self.spec_message(),
    {
        match self {
            RecvError::Deserialize(_) => "deserialization failed".to_owned(),
            RecvError::ChannelClosed => "channel closed".to_owned(),
            RecvError::WebSocket(_) => "websocket error".to_owned(),
        }
    }
}

impl From<bincode::Error> for SendError {
    fn from(error: bincode::Error) -> (converted: Self) {
        SendError::Serialize(error)
    }
}

impl vstd::std_specs::convert::FromSpecImpl<bincode::Error> for SendError {
    open spec fn obeys_from_spec() -> bool {
        true
    }

    open spec fn from_spec(error: bincode::Error) -> Self {
        SendError::Serialize(error)
    }
}

impl From<bincode::Error> for RecvError {
    fn from(error: bincode::Error) -> (converted: Self) {
        RecvError::Deserialize(error)
    }
}

impl vstd::std_specs::convert::FromSpecImpl<bincode::Error> for RecvError {
    open spec fn obeys_from_spec() -> bool {
        true
    }

    open spec fn from_spec(error: bincode::Error) -> Self {
        RecvError::Deserialize(error)
    }
}

impl From<ConnectionError> for RecvError {
    fn from(error: ConnectionError) -> (converted: Self) {
        RecvError::WebSocket(error)
    }
}

impl vstd::std_specs::convert::FromSpecImpl<ConnectionError> for RecvError {
    open spec fn obeys_from_spec() -> bool {
        true
    }

    open spec fn from_spec(error: ConnectionError) -> Self {
        RecvError::WebSocket(error)
    }
}

/// A sender is told in different words whether its packet was not turned into
/// bytes or its channel is closed.
pub proof fn send_errors_have_words(error: &SendError, text: String)
    requires
        call_ensures(SendError::message, (error,), text),
    ensures
        error is Serialize ==> text@ == "serialization failed"@,
        error is ChannelClosed ==> text@ == "channel closed"@,
{
}

/// A receiver is told in different words whether a payload was no packet, its
/// channel is closed or the connection failed.
pub proof fn recv_errors_have_words(error: &RecvError, text: String)
    requires
        call_ensures(RecvError::message, (error,), text),
    ensures
        error is Deserialize ==> text@ == "deserialization failed"@,
        error is ChannelClosed ==> text@ == "channel closed"@,
        error is WebSocket ==> text@ == "websocket error"@,
{
}

/// Errors are taken over with what caused them: one of turning a packet into
/// bytes by the sender, one of turning bytes into a packet and one of the
/// connection by the receiver.
pub proof fn errors_keep_their_cause(codec: bincode::Error, connection: ConnectionError)
    ensures
        <SendError as vstd::std_specs::convert::FromSpec<bincode::Error>>::from_spec(codec)
            == SendError::Serialize(codec),
        <RecvError as vstd::std_specs::convert::FromSpec<bincode::Error>>::from_spec(codec)
            == RecvError::Deserialize(codec),
        <RecvError as vstd::std_specs::convert::FromSpec<ConnectionError>>::from_spec(connection)
            == RecvError::WebSocket(connection),
{
}

} // verus!
