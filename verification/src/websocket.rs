//! The decisions of a small WebSocket client that greets the server and
//! waits for the greeting to come back.
//!
//! The client itself is a loop around [`step`]: it does what the last
//! command asks, and hands back what happened as the next event.

use tokio_tungstenite::tungstenite::Error as SocketError;
use url::{ParseError, Url};
use vstd::prelude::*;
use vstd::string::StringExecFns;
use vstd::utf8::encode_utf8;

verus! {

/// `url::Url`, carried through without looking inside.
#[verifier::external_type_specification]
#[verifier::external_body]
pub struct ExUrl(Url);

/// `url::ParseError`, carried through without looking inside.
#[verifier::external_type_specification]
#[verifier::external_body]
pub struct ExParseError(ParseError);

/// `tungstenite::Error`, carried through without looking inside.
#[verifier::external_type_specification]
#[verifier::external_body]
pub struct ExSocketError(SocketError);

/// Whether `url::Url::parse` accepts the given text as an absolute URL.
pub uninterp spec fn url_accepts(text: Seq<char>) -> bool;

/// Calls `url::Url::parse`.
///
/// Trusted: whether the call succeeds depends on the text alone, and
/// [`url_accepts`] is the name for it. Nothing is claimed of the URL or of
/// the error that comes back.
#[verifier::external_body]
fn parse_url(text: &str) -> (parsed: Result<Url, ParseError>)
    ensures
        parsed is Ok == url_accepts(text@),
{
    Url::parse(text)
}

/// The ways in which the client can fail.
#[derive(Debug)]
pub enum ClientError {
    /// The address is no absolute URL.
    InvalidUrl(ParseError),
    /// The connection could not be made, for the reason that it carries.
    Connect(SocketError),
    /// A message could not be sent, for the reason that it carries.
    Send(SocketError),
    /// Waiting for a message failed, for the reason that it carries.
    Receive(SocketError),
    /// Something happened that cannot happen in the state the client was in.
    OutOfTurn,
}

/// Turns the outcome of parsing the address into the client's first move:
/// the URL to connect to, or the error that ends the client.
pub fn connect_target(parsed: Result<Url, ParseError>) -> (target: Result<Url, ClientError>)
    ensures
        target == match parsed {
            Ok(url) => Ok::<Url, ClientError>(url),
            Err(error) => Err::<Url, ClientError>(ClientError::InvalidUrl(error)),
        },
{
    match parsed {
        Ok(url) => Ok(url),
        Err(error) => Err(ClientError::InvalidUrl(error)),
    }
}

/// Reads the address of the server: the URL to connect to if the text is an
/// absolute URL, and [`ClientError::InvalidUrl`] if it is not.
pub fn start(ws_url: &str) -> (target: Result<Url, ClientError>)
    ensures
        url_accepts(ws_url@) ==> target is Ok,
        !url_accepts(ws_url@) ==> target matches Err(ClientError::InvalidUrl(_)),
{
    connect_target(parse_url(ws_url))
}

/// Whether `needle` stands in `hay` at the position `at`.
pub open spec fn occurs_at(needle: Seq<u8>, hay: Seq<u8>, at: int) -> bool {
    0 <= at && at + needle.len() <= hay.len() && hay.subrange(at, at + needle.len()) == needle
}

/// Whether `needle` stands somewhere in `hay`.
pub open spec fn occurs_in(needle: Seq<u8>, hay: Seq<u8>) -> bool {
    exists|at: int| occurs_at(needle, hay, at)
}

/// Tells whether `needle` stands in `hay` at the position `at`.
fn matches_at(needle: &[u8], hay: &[u8], at: usize) -> (found: bool)
    requires
        at + needle.len() <= hay.len(),
    ensures
        found == occurs_at(needle@, hay@, at as int),
{
    let mut k: usize = 0;
    while k < needle.len()
        invariant
            k <= needle.len(),
            at + needle.len() <= hay.len(),
            forall|j: int| 0 <= j < k ==> hay@[at + j] == needle@[j],
        decreases needle.len() - k,
    {
        if hay[at + k] != needle[k] {
            proof {
                let part = hay@.subrange(at as int, at + needle.len());
                assert(part[k as int] == hay@[at + k]);
            }
            return false;
        }
        k = k + 1;
    }
    proof {
        assert(hay@.subrange(at as int, at + needle.len()) =~= needle@);
    }
    true
}

/// Tells whether the bytes of `needle` stand somewhere in `hay`.
pub fn contains_bytes(hay: &[u8], needle: &[u8]) -> (found: bool)
    ensures
        found == occurs_in(needle@, hay@),
{
    if needle.len() > hay.len() {
        return false;
    }
    let last: usize = hay.len() - needle.len();
    let mut at: usize = 0;
    while at < last
        invariant
            at <= last,
            last == hay.len() - needle.len(),
            forall|p: int| 0 <= p < at ==> !occurs_at(needle@, hay@, p),
        decreases last - at,
    {
        if matches_at(needle, hay, at) {
            return true;
        }
        at = at + 1;
    }
    matches_at(needle, hay, last)
}

/// Tells whether `pattern` stands somewhere in `text`, both taken as the
/// bytes of their UTF-8 encoding.
pub fn text_contains(text: &str, pattern: &str) -> (found: bool)
    ensures
        found == occurs_in(encode_utf8(pattern@), encode_utf8(text@)),
{
    contains_bytes(text.as_bytes(), pattern.as_bytes())
}

/// The text that the client sends to the server, and waits to get back.
pub const GREETING: &'static str = "Hello, WebSocket from Rust!";

/// A message from the server.
#[derive(Debug)]
pub enum Incoming {
    Text(String),
    Binary(Vec<u8>),
    Ping(Vec<u8>),
    Pong(Vec<u8>),
    Close,
    Frame,
}

/// A message to the server.
#[derive(Debug)]
pub enum Outgoing {
    Text(String),
    Pong(Vec<u8>),
}

/// Where the client stands.
#[derive(Clone, Copy, Debug, PartialEq, Eq, Structural)]
pub enum State {
    /// Waiting for the connection.
    Connecting,
    /// Waiting for the greeting to be sent.
    Greeting,
    /// Waiting for a message.
    Listening,
    /// Waiting for the answer to a ping to be sent.
    Answering,
    /// Done.
    Finished,
}

/// What happened since the last command.
#[derive(Debug)]
pub enum Event {
    /// The connection is made.
    Connected,
    /// The connection could not be made.
    ConnectFailed(SocketError),
    /// The message is sent.
    Sent,
    /// The message could not be sent.
    SendFailed(SocketError),
    /// A message has come.
    Received(Incoming),
    /// Waiting for a message failed.
    ReceiveFailed(SocketError),
    /// The server will send no more.
    StreamEnded,
}

/// Why the client stopped without an error.
#[derive(Clone, Copy, Debug, PartialEq, Eq, Structural)]
pub enum Ending {
    /// The greeting came back.
    EchoReceived,
    /// The server closed the connection.
    ClosedByServer,
    /// The server sent no more.
    StreamEnded,
}

/// What the client is to do next.
#[derive(Debug)]
pub enum Command {
    /// Send this message, and report `Sent` or `SendFailed`.
    Send(Outgoing),
    /// Wait for a message, and report what came.
    Receive,
    /// Stop, with this result.
    Stop(Result<Ending, ClientError>),
}

/// Whether the text of a message holds the greeting, both taken as the bytes
/// of their UTF-8 encoding.
pub open spec fn is_echo(text: Seq<char>) -> bool {
    occurs_in(encode_utf8(GREETING@), encode_utf8(text))
}

/// What the client does with a message that comes while it listens.
pub open spec fn listening_step(message: Incoming, next: State, command: Command) -> bool {
    match message {
        Incoming::Text(text) => if is_echo(text@) {
            &&& next == State::Finished
            &&& command matches Command::Stop(Ok(Ending::EchoReceived))
        } else {
            &&& next == State::Listening
            &&& command is Receive
        },
        Incoming::Ping(payload) => {
            &&& next == State::Answering
            &&& command == Command::Send(Outgoing::Pong(payload))
        },
        Incoming::Close => {
            &&& next == State::Finished
            &&& command matches Command::Stop(Ok(Ending::ClosedByServer))
        },
        Incoming::Binary(_) | Incoming::Pong(_) | Incoming::Frame => {
            &&& next == State::Listening
            &&& command is Receive
        },
    }
}

/// The client's rule: what follows from an event in a state.
///
/// - While connecting, the connection leads to sending the greeting, and a
///   failure ends the client with [`ClientError::Connect`].
/// - Once a message is sent, the client listens; a failure to send ends it
///   with [`ClientError::Send`].
/// - While listening, a message is answered as [`listening_step`] says, the
///   end of the stream ends the client without an error, and a failure ends
///   it with [`ClientError::Receive`].
/// - Anything else ends the client with [`ClientError::OutOfTurn`].
///
/// A failure that comes in its turn is handed on as it came, and nothing is
/// tried again.
pub open spec fn step_rule(state: State, event: Event, next: State, command: Command) -> bool {
    match (state, event) {
        (State::Connecting, Event::Connected) => {
            &&& next == State::Greeting
            &&& command matches Command::Send(Outgoing::Text(text))
            &&& text@ == GREETING@
        },
        (State::Connecting, Event::ConnectFailed(error)) => {
            &&& next == State::Finished
            &&& command == Command::Stop(Err(ClientError::Connect(error)))
        },
        (State::Greeting, Event::Sent) | (State::Answering, Event::Sent) => {
            &&& next == State::Listening
            &&& command is Receive
        },
        (State::Greeting, Event::SendFailed(error))
        | (State::Answering, Event::SendFailed(error)) => {
            &&& next == State::Finished
            &&& command == Command::Stop(Err(ClientError::Send(error)))
        },
        (State::Listening, Event::Received(message)) => listening_step(message, next, command),
        (State::Listening, Event::ReceiveFailed(error)) => {
            &&& next == State::Finished
            &&& command == Command::Stop(Err(ClientError::Receive(error)))
        },
        (State::Listening, Event::StreamEnded) => {
            &&& next == State::Finished
            &&& command matches Command::Stop(Ok(Ending::StreamEnded))
        },
        _ => {
            &&& next == State::Finished
            &&& command matches Command::Stop(Err(ClientError::OutOfTurn))
        },
    }
}

/// Decides what the client does next.
pub fn step(state: State, event: Event) -> (moved: (State, Command))
    ensures
        step_rule(state, event, moved.0, moved.1),
{
    match (state, event) {
        (State::Connecting, Event::Connected) => (
            State::Greeting,
            Command::Send(Outgoing::Text(String::from_str(GREETING))),
        ),
        (State::Connecting, Event::ConnectFailed(error)) => (
            State::Finished,
            Command::Stop(Err(ClientError::Connect(error))),
        ),
        (State::Greeting, Event::Sent) => (State::Listening, Command::Receive),
        (State::Answering, Event::Sent) => (State::Listening, Command::Receive),
        (State::Greeting, Event::SendFailed(error)) => (
            State::Finished,
            Command::Stop(Err(ClientError::Send(error))),
        ),
        (State::Answering, Event::SendFailed(error)) => (
            State::Finished,
            Command::Stop(Err(ClientError::Send(error))),
        ),
        (State::Listening, Event::Received(message)) => match message {
            Incoming::Text(text) => {
                if text_contains(text.as_str(), GREETING) {
                    (State::Finished, Command::Stop(Ok(Ending::EchoReceived)))
                } else {
                    (State::Listening, Command::Receive)
                }
            },
            Incoming::Ping(payload) => (State::Answering, Command::Send(Outgoing::Pong(payload))),
            Incoming::Close => (State::Finished, Command::Stop(Ok(Ending::ClosedByServer))),
            Incoming::Binary(_) => (State::Listening, Command::Receive),
            Incoming::Pong(_) => (State::Listening, Command::Receive),
            Incoming::Frame => (State::Listening, Command::Receive),
        },
        (State::Listening, Event::ReceiveFailed(error)) => (
            State::Finished,
            Command::Stop(Err(ClientError::Receive(error))),
        ),
        (State::Listening, Event::StreamEnded) => (
            State::Finished,
            Command::Stop(Ok(Ending::StreamEnded)),
        ),
        _ => (State::Finished, Command::Stop(Err(ClientError::OutOfTurn))),
    }
}

} // verus!
