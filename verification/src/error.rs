//! Errors raised by the library's own logic.
use vstd::prelude::*;

use crate::text::{concat2, owned, append_str};

verus! {

broadcast use vstd::string::group_string_axioms;

/// Which way a WebSocket frame was travelling when an error happened.
#[derive(Clone, Copy, Debug, PartialEq, Eq, Structural)]
pub enum WebSocketDirection {
    Inbound,
    Outbound,
}

impl WebSocketDirection {
    /// The lowercase label used in diagnostics.
    pub fn as_str(&self) -> (s: &'static str)
        ensures
            s@ == direction_label(*self),
    {
        match self {
            WebSocketDirection::Inbound => "inbound",
            WebSocketDirection::Outbound => "outbound",
        }
    }
}

pub open spec fn direction_label(d: WebSocketDirection) -> Seq<char> {
    match d {
        WebSocketDirection::Inbound => "inbound"@,
        WebSocketDirection::Outbound => "outbound"@,
    }
}

/// Where a WebSocket error happened: the endpoint label and the direction.
#[derive(Clone, Copy, Debug, PartialEq, Eq)]
pub struct WebSocketErrorContext {
    pub endpoint: &'static str,
    pub direction: WebSocketDirection,
}

impl WebSocketErrorContext {
    pub fn new(endpoint: &'static str, direction: WebSocketDirection) -> (r: Self)
        ensures
            r.endpoint == endpoint,
            r.direction == direction,
    {
        WebSocketErrorContext { endpoint, direction }
    }

    /// `"{endpoint} {direction}"`, as the diagnostics print it.
    pub fn describe(&self) -> (s: String)
        ensures
            s@ == self.endpoint@ + " "@ + direction_label(self.direction),
    {
        let mut s = concat2(self.endpoint, " ");
        append_str(&mut s, self.direction.as_str());
        s
    }
}

/// WebSocket failures that the library's own logic detects.
#[derive(Clone, Debug)]
pub enum WebSocketError {
    /// The server closed with a code other than normal closure.
    NonNormalClose { context: WebSocketErrorContext, code: String, reason: String },
    /// The connection ended without a close frame.
    ClosedWithoutCloseFrame { context: WebSocketErrorContext },
    /// A frame of a kind the protocol does not allow arrived.
    UnexpectedFrame {
        context: WebSocketErrorContext,
        expected: &'static str,
        received: &'static str,
    },
    /// The writer task finished before answering a command.
    WriterFinished { endpoint: &'static str },
    /// The writer's command queue is closed.
    SendQueueClosed { endpoint: &'static str },
    /// The writer did not confirm the close frame in time.
    CloseTimeout { endpoint: &'static str, timeout: std::time::Duration },
}

/// Errors raised by the library's own logic.
#[derive(Clone, Debug)]
pub enum Error {
    /// An input that the API or the protocol rejects, with the reason.
    InvalidInput(String),
    /// A file name without an extension where one is needed to infer a MIME type.
    FileExtensionNotFound,
    /// A file name that is not valid UTF-8.
    FileExtensionNotValidUTF8,
    /// A file extension for which no MIME type is known.
    FileExtensionNotSupported,
    /// Text that base64 decoding rejected.
    Base64DecodeError,
    /// Bytes that are not well-formed UTF-8.
    Utf8Error,
    /// A JSON document that could not be read as expected, with the reason.
    JsonError(String),
    /// A WebSocket protocol error.
    WebSocketError(WebSocketError),
}

/// An `InvalidInput` error carrying `message`.
pub fn invalid_input(message: &str) -> (e: Error)
    ensures
        e matches Error::InvalidInput(m) && m@ == message@,
{
    Error::InvalidInput(owned(message))
}

} // verus!
