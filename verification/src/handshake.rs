//! The first exchange on a client connection: one line of JSON that names
//! a topic and a mode, and the answer that a client whose handshake failed
//! receives.

use vstd::prelude::*;

verus! {

/// How the messages of a session are framed.
#[derive(Clone, Copy, Debug, PartialEq, Eq, Structural)]
pub enum Codec {
    Lines,
    Unsafe,
}

impl Default for Codec {
    /// A handshake that names no codec uses lines.
    fn default() -> (codec: Self)
        ensures
            codec == Codec::Lines,
    {
        Codec::Lines
    }
}

/// Whether a client means to write to a topic or to read from it.
#[derive(Clone, Copy, Debug, PartialEq, Eq, Structural)]
pub enum Mode {
    Produce,
    Consume,
}

/// What a client asks for when it connects.
#[derive(Debug)]
pub struct Handshake {
    pub topic: String,
    pub mode: Mode,
    pub codec: Codec,
}

/// Why a handshake failed. The messages of the outside errors (a line
/// that could not be read, JSON that could not be parsed) are carried as
/// text.
#[derive(Debug)]
pub enum HandshakeError {
    LinesCodecError(String),
    EmptyMessage,
    JsonError(String),
}

impl HandshakeError {
    /// The text of the error: that of the error it wraps, or, for a
    /// connection that closed before any line, "received empty message".
    pub open spec fn message(&self) -> Seq<char> {
        match self {
            HandshakeError::LinesCodecError(text) => text@,
            HandshakeError::EmptyMessage => "received empty message"@,
            HandshakeError::JsonError(text) => text@,
        }
    }

    pub fn to_string(&self) -> (text: String)
        ensures
            text@ == self.message(),
    {
        match self {
            HandshakeError::LinesCodecError(text) => text.clone(),
            HandshakeError::EmptyMessage => "received empty message".to_owned(),
            HandshakeError::JsonError(text) => text.clone(),
        }
    }
}

/// The answer to a client: `Err` carries the reason for a refusal.
#[derive(Debug)]
pub struct Response {
    pub status: Result<(), String>,
}

impl Response {
    /// The answer to a client whose handshake failed.
    pub fn rejection(error: &HandshakeError) -> (response: Response)
        ensures
            response.status matches Err(text) && text@ == error.message(),
    {
        Response { status: Err(error.to_string()) }
    }
}

/// The longest handshake line that is read, in bytes.
pub fn handshake_max_line_length() -> (length: usize)
    ensures
        length == u16::MAX,
{
    0xffff
}

/// The handshake line from what reading the first line gave: an error is
/// passed on, and a connection that closed before any line is an
/// `EmptyMessage`.
pub fn handshake_line(next: Result<Option<String>, HandshakeError>) -> (line: Result<
    String,
    HandshakeError,
>)
    ensures
        match next {
            Ok(Some(text)) => line == Ok::<String, HandshakeError>(text),
            Ok(None) => line matches Err(HandshakeError::EmptyMessage),
            Err(error) => line == Err::<String, HandshakeError>(error),
        },
{
    match next {
        Ok(Some(text)) => Ok(text),
        Ok(None) => Err(HandshakeError::EmptyMessage),
        Err(error) => Err(error),
    }
}

/// What the server does with a new client once its handshake is read.
#[derive(Debug)]
pub enum ClientAction {
    /// Send this answer and close the connection.
    Reject(Response),
    /// Serve a producer session.
    Produce(Handshake),
    /// Serve a consumer session.
    Consume(Handshake),
}

/// Decides what to do with a client from the result of its handshake: a
/// failed handshake is answered with its error's text, a valid one starts
/// the session that its mode names.
pub fn client_action(attempt: Result<Handshake, HandshakeError>) -> (action: ClientAction)
    ensures
        match attempt {
            Ok(hs) => match hs.mode {
                Mode::Produce => action == ClientAction::Produce(hs),
                Mode::Consume => action == ClientAction::Consume(hs),
            },
            Err(error) => action matches ClientAction::Reject(response)
                && response.status matches Err(text) && text@ == error.message(),
        },
{
    match attempt {
        Ok(hs) => match hs.mode {
            Mode::Produce => ClientAction::Produce(hs),
            Mode::Consume => ClientAction::Consume(hs),
        },
        Err(error) => ClientAction::Reject(Response::rejection(&error)),
    }
}

} // verus!
