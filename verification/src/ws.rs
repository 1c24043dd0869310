//! WebSocket sessions: runtime options, the decisions of a session's close
//! and abort, how frames and payloads are described in diagnostics, and how
//! WebSocket URLs are built.
use vstd::prelude::*;

use std::time::Duration;

use crate::error::{Error, WebSocketError};
use crate::text::{append_str, chars_of, string_from};

verus! {

broadcast use vstd::string::group_string_axioms;

/// The whole milliseconds of a duration (`Duration::as_millis`).
pub uninterp spec fn duration_millis(d: Duration) -> nat;

/// `Duration::from_secs`: a duration of whole seconds, which is that many
/// thousands of milliseconds.
#[verifier::external_body]
fn duration_from_secs(secs: u64) -> (d: Duration)
    ensures
        duration_millis(d) == secs * 1000,
{
    Duration::from_secs(secs)
}

/// `Clone` for `Duration`, a `Copy` type: the clone is the same duration.
pub assume_specification[ <Duration as Clone>::clone ](d: &Duration) -> (r: Duration)
    ensures
        r == *d,
;

/// Inbound messages buffered by default.
pub const DEFAULT_INBOUND_BUFFER: usize = 64;

/// Seconds a graceful close waits by default.
pub const DEFAULT_CLOSE_TIMEOUT_SECS: u64 = 5;

/// Runtime settings for WebSocket sessions.
#[derive(Clone, Copy, Debug)]
pub struct WebSocketOptions {
    /// Inbound messages buffered while the caller is not polling.
    pub inbound_buffer: usize,
    /// How long a graceful close waits for the close frame to be sent.
    pub close_timeout: Duration,
}

impl WebSocketOptions {
    /// Sixty-four buffered messages and a five-second close timeout.
    pub fn new() -> (r: Self)
        ensures
            r.inbound_buffer == DEFAULT_INBOUND_BUFFER,
            duration_millis(r.close_timeout) == DEFAULT_CLOSE_TIMEOUT_SECS * 1000,
    {
        WebSocketOptions {
            inbound_buffer: DEFAULT_INBOUND_BUFFER,
            close_timeout: duration_from_secs(DEFAULT_CLOSE_TIMEOUT_SECS),
        }
    }

    pub fn with_inbound_buffer(self, inbound_buffer: usize) -> (r: Self)
        ensures
            r.inbound_buffer == inbound_buffer,
            r.close_timeout == self.close_timeout,
    {
        WebSocketOptions { inbound_buffer, ..self }
    }

    pub fn with_close_timeout(self, close_timeout: Duration) -> (r: Self)
        ensures
            r.inbound_buffer == self.inbound_buffer,
            r.close_timeout == close_timeout,
    {
        WebSocketOptions { close_timeout, ..self }
    }

    /// The options a session runs with: a buffer of at least one message.
    pub fn normalized(self) -> (r: Self)
        ensures
            r.inbound_buffer == (if self.inbound_buffer >= 1 {
                self.inbound_buffer
            } else {
                1
            }),
            r.close_timeout == self.close_timeout,
    {
        let b = if self.inbound_buffer >= 1 {
            self.inbound_buffer
        } else {
            1
        };
        WebSocketOptions { inbound_buffer: b, close_timeout: self.close_timeout }
    }
}

impl Default for WebSocketOptions {
    fn default() -> (r: Self)
        ensures
            r.inbound_buffer == DEFAULT_INBOUND_BUFFER,
            duration_millis(r.close_timeout) == DEFAULT_CLOSE_TIMEOUT_SECS * 1000,
    {
        Self::new()
    }
}

/// How one background task of a session ended.
#[derive(Clone, Debug, PartialEq, Eq)]
pub enum WebSocketTaskStatus {
    Completed,
    Failed { error: String },
    Aborted,
    Panicked { error: String },
    AlreadyJoined,
}

/// How the reader and writer tasks of a session ended.
#[derive(Clone, Debug, PartialEq, Eq)]
pub struct WebSocketSessionReport {
    pub reader: WebSocketTaskStatus,
    pub writer: WebSocketTaskStatus,
}

/// A marker for the endpoints that open WebSocket sessions; only this crate
/// implements it.
pub trait Sealed {}

// ---------------------------------------------------------------------------
// Session state
// ---------------------------------------------------------------------------

/// What a session knows of itself: whether it was closed or aborted, whether
/// each background task is still held and has finished, and whether the
/// writer still takes commands.
#[derive(Clone, Copy, Debug, PartialEq, Eq, Structural)]
pub struct SessionFlags {
    pub closed: bool,
    /// The reader task is held and has not finished.
    pub reader_running: bool,
    /// The writer task is held and has not finished.
    pub writer_running: bool,
    /// The writer's command queue is still held.
    pub has_commands: bool,
}

/// What the first step of a graceful close does.
#[derive(Clone, Copy, Debug, PartialEq, Eq, Structural)]
pub enum CloseStart {
    /// Nothing is running: mark the session closed and succeed.
    AlreadyClosed,
    /// The writer is gone: stop the reader and succeed.
    AbortReaderOnly,
    /// The command queue was dropped: fail with `SendQueueClosed`.
    QueueClosed,
    /// Ask the writer to send a close frame and wait for its answer.
    SendClose,
}

/// How the wait for the writer's answer ended.
#[derive(Clone, Copy, Debug, PartialEq, Eq, Structural)]
pub enum CloseOutcome {
    /// The close command could not be queued.
    SendFailed,
    /// The writer sent the close frame.
    Sent,
    /// The writer reported an error sending the close frame.
    SendError,
    /// The writer dropped the answer channel.
    WriterGone,
    /// The timeout passed first.
    TimedOut,
}

/// What a graceful close reports.
#[derive(Clone, Debug)]
pub enum CloseResult {
    /// The close frame was sent.
    Closed,
    /// The writer failed to send the close frame; its error is the result.
    WriterError,
    /// The close failed with this error.
    Failed(Error),
}

/// Whether a session is closed: marked so, or with both tasks finished.
pub open spec fn closed_spec(f: SessionFlags) -> bool {
    f.closed || (!f.reader_running && !f.writer_running)
}

/// The flags after an abort: both tasks stopped, no queue, closed.
pub open spec fn aborted(f: SessionFlags) -> SessionFlags {
    SessionFlags { closed: true, reader_running: false, writer_running: false, has_commands: false }
}

impl SessionFlags {
    /// A session whose two tasks have just been spawned.
    pub fn started() -> (f: Self)
        ensures
            f == (SessionFlags {
                closed: false,
                reader_running: true,
                writer_running: true,
                has_commands: true,
            }),
    {
        SessionFlags { closed: false, reader_running: true, writer_running: true, has_commands: true }
    }

    /// Whether both background tasks have finished, or the session was
    /// closed or aborted.
    pub fn is_closed(&self) -> (b: bool)
        ensures
            b == closed_spec(*self),
    {
        self.closed || (!self.reader_running && !self.writer_running)
    }

    /// Stops both tasks at once.
    pub fn abort(&mut self)
        ensures
            *final(self) == aborted(*old(self)),
            closed_spec(*final(self)),
    {
        self.reader_running = false;
        self.writer_running = false;
        self.has_commands = false;
        self.closed = true;
    }

    /// The first step of a graceful close.
    pub fn close_start(&mut self) -> (a: CloseStart)
        ensures
            closed_spec(*old(self)) ==> a == CloseStart::AlreadyClosed && final(self).closed
                && final(self).reader_running == old(self).reader_running
                && final(self).writer_running == old(self).writer_running
                && final(self).has_commands == old(self).has_commands,
            !closed_spec(*old(self)) && !old(self).writer_running ==> a == CloseStart::AbortReaderOnly
                && *final(self) == (SessionFlags { reader_running: false, ..*old(self) }),
            !closed_spec(*old(self)) && old(self).writer_running && !old(self).has_commands ==> a
                == CloseStart::QueueClosed && *final(self) == *old(self),
            !closed_spec(*old(self)) && old(self).writer_running && old(self).has_commands ==> a
                == CloseStart::SendClose && *final(self) == *old(self),
    {
        if self.is_closed() {
            self.closed = true;
            CloseStart::AlreadyClosed
        } else if !self.writer_running {
            self.reader_running = false;
            CloseStart::AbortReaderOnly
        } else if !self.has_commands {
            CloseStart::QueueClosed
        } else {
            CloseStart::SendClose
        }
    }

    /// The last step of a graceful close, once the wait has ended. A sent
    /// close frame stops the reader and closes the session; an error from
    /// the writer or a timeout aborts it; a dropped answer channel or a
    /// refused command leaves it as it is.
    pub fn close_finish(
        &mut self,
        outcome: CloseOutcome,
        endpoint: &'static str,
        timeout: Duration,
    ) -> (r: CloseResult)
        ensures
            outcome == CloseOutcome::Sent ==> r is Closed && *final(self) == (SessionFlags {
                closed: true,
                reader_running: false,
                has_commands: false,
                ..*old(self)
            }),
            outcome == CloseOutcome::SendError ==> r is WriterError && *final(self) == aborted(
                *old(self),
            ),
            outcome == CloseOutcome::TimedOut ==> (r matches CloseResult::Failed(
                Error::WebSocketError(WebSocketError::CloseTimeout { endpoint: e, timeout: t }),
            ) && e == endpoint && t == timeout && *final(self) == aborted(*old(self))),
            outcome == CloseOutcome::WriterGone ==> (r matches CloseResult::Failed(
                Error::WebSocketError(WebSocketError::WriterFinished { endpoint: e }),
            ) && e == endpoint && *final(self) == *old(self)),
            outcome == CloseOutcome::SendFailed ==> (r matches CloseResult::Failed(
                Error::WebSocketError(WebSocketError::SendQueueClosed { endpoint: e }),
            ) && e == endpoint && *final(self) == *old(self)),
    {
        match outcome {
            CloseOutcome::Sent => {
                self.reader_running = false;
                self.has_commands = false;
                self.closed = true;
                CloseResult::Closed
            },
            CloseOutcome::SendError => {
                self.abort();
                CloseResult::WriterError
            },
            CloseOutcome::TimedOut => {
                self.abort();
                CloseResult::Failed(
                    Error::WebSocketError(WebSocketError::CloseTimeout { endpoint, timeout }),
                )
            },
            CloseOutcome::WriterGone => CloseResult::Failed(
                Error::WebSocketError(WebSocketError::WriterFinished { endpoint }),
            ),
            CloseOutcome::SendFailed => CloseResult::Failed(
                Error::WebSocketError(WebSocketError::SendQueueClosed { endpoint }),
            ),
        }
    }

    /// The flags after joining the tasks: neither is held any more.
    pub fn joined(&mut self)
        ensures
            *final(self) == aborted(*old(self)),
    {
        self.abort();
    }
}

/// Once closed, a session stays closed through any further close step and
/// abort.
pub proof fn lemma_closed_is_stable(f: SessionFlags, outcome: CloseOutcome)
    requires
        closed_spec(f),
    ensures
        closed_spec(aborted(f)),
        f.closed ==> closed_spec(SessionFlags { reader_running: false, ..f }),
        outcome != CloseOutcome::Sent ==> closed_spec(f),
{
}

// ---------------------------------------------------------------------------
// The writer task
// ---------------------------------------------------------------------------

/// Where the writer task stands: whether its inputs have run out, and
/// whether it closes the connection once they have.
#[derive(Clone, Copy, Debug, PartialEq, Eq, Structural)]
pub struct WriterState {
    pub inputs_done: bool,
    pub close_after_inputs: bool,
}

/// What the writer does before it waits again.
#[derive(Clone, Copy, Debug, PartialEq, Eq, Structural)]
pub enum WriterWait {
    /// Wait for a close command or the next input, whichever comes first.
    CommandOrInput,
    /// The inputs ran out: wait for a close command only.
    CommandOnly,
    /// The inputs ran out: close the connection and stop.
    CloseNow,
}

/// What woke the writer.
#[derive(Clone, Copy, Debug, PartialEq, Eq, Structural)]
pub enum WriterEvent {
    /// A close command arrived.
    Command,
    /// The command queue was dropped.
    QueueClosed,
    /// The next input arrived.
    Input,
    /// The inputs ran out.
    InputsDone,
}

/// What the writer does with an event.
#[derive(Clone, Copy, Debug, PartialEq, Eq, Structural)]
pub enum WriterAction {
    /// Send the input and wait again.
    Send,
    /// Close the connection, answer the command and stop.
    CloseAndStop,
    /// Stop without closing.
    Stop,
    /// Wait again.
    Continue,
}

impl WriterState {
    /// A writer whose inputs have not started.
    pub fn new(close_after_inputs: bool) -> (w: Self)
        ensures
            w == (WriterState { inputs_done: false, close_after_inputs }),
    {
        WriterState { inputs_done: false, close_after_inputs }
    }

    /// What to wait for: a command or an input while inputs remain; after
    /// that, the close itself or a command, as the session was opened.
    pub fn wait(&self) -> (r: WriterWait)
        ensures
            r == (if !self.inputs_done {
                WriterWait::CommandOrInput
            } else if self.close_after_inputs {
                WriterWait::CloseNow
            } else {
                WriterWait::CommandOnly
            }),
    {
        if !self.inputs_done {
            WriterWait::CommandOrInput
        } else if self.close_after_inputs {
            WriterWait::CloseNow
        } else {
            WriterWait::CommandOnly
        }
    }

    /// The writer's answer to an event: a command closes and stops, a
    /// dropped queue stops, an input is sent, and the end of the inputs is
    /// remembered.
    pub fn on_event(&mut self, event: WriterEvent) -> (a: WriterAction)
        ensures
            a == (match event {
                WriterEvent::Command => WriterAction::CloseAndStop,
                WriterEvent::QueueClosed => WriterAction::Stop,
                WriterEvent::Input => WriterAction::Send,
                WriterEvent::InputsDone => WriterAction::Continue,
            }),
            final(self).close_after_inputs == old(self).close_after_inputs,
            final(self).inputs_done == (old(self).inputs_done || event == WriterEvent::InputsDone),
    {
        match event {
            WriterEvent::Command => WriterAction::CloseAndStop,
            WriterEvent::QueueClosed => WriterAction::Stop,
            WriterEvent::Input => WriterAction::Send,
            WriterEvent::InputsDone => {
                self.inputs_done = true;
                WriterAction::Continue
            },
        }
    }
}

// ---------------------------------------------------------------------------
// Diagnostics
// ---------------------------------------------------------------------------

/// The kinds of WebSocket frames.
#[derive(Clone, Copy, Debug, PartialEq, Eq, Structural)]
pub enum FrameKind {
    Text,
    Binary,
    Ping,
    Pong,
    Close,
    Frame,
}

pub open spec fn frame_kind_name(k: FrameKind) -> Seq<char> {
    match k {
        FrameKind::Text => "text"@,
        FrameKind::Binary => "binary"@,
        FrameKind::Ping => "ping"@,
        FrameKind::Pong => "pong"@,
        FrameKind::Close => "close"@,
        FrameKind::Frame => "raw frame"@,
    }
}

/// The name of each frame kind.
pub proof fn lemma_frame_kind_name_table()
    ensures
        frame_kind_name(FrameKind::Text) == "text"@,
        frame_kind_name(FrameKind::Binary) == "binary"@,
        frame_kind_name(FrameKind::Ping) == "ping"@,
        frame_kind_name(FrameKind::Pong) == "pong"@,
        frame_kind_name(FrameKind::Close) == "close"@,
        frame_kind_name(FrameKind::Frame) == "raw frame"@,
{
}

/// The name of a frame kind in diagnostics.
pub fn frame_kind(k: FrameKind) -> (s: &'static str)
    ensures
        s@ == frame_kind_name(k),
{
    match k {
        FrameKind::Text => "text",
        FrameKind::Binary => "binary",
        FrameKind::Ping => "ping",
        FrameKind::Pong => "pong",
        FrameKind::Close => "close",
        FrameKind::Frame => "raw frame",
    }
}

/// Characters of a payload shown in a decoding error.
pub const MAX_PREVIEW_CHARS: usize = 256;

/// The first characters of a payload, with `...` when some were left out.
pub open spec fn preview_spec(p: Seq<char>) -> Seq<char> {
    if p.len() > MAX_PREVIEW_CHARS {
        p.take(MAX_PREVIEW_CHARS as int) + "..."@
    } else {
        p
    }
}

/// A preview keeps a payload of at most 256 characters whole; a longer one
/// is cut to its first 256 characters, followed by `...`.
pub proof fn lemma_preview_bounds(p: Seq<char>)
    ensures
        p.len() <= 256 ==> preview_spec(p) == p,
        p.len() > 256 ==> preview_spec(p).len() == 259 && preview_spec(p).take(256) == p.take(256)
            && preview_spec(p).skip(256) == "..."@,
{
    reveal_strlit("...");
    assert("..."@.len() == 3);
    if p.len() > 256 {
        assert(preview_spec(p).take(256) =~= p.take(256));
        assert(preview_spec(p).skip(256) =~= "..."@);
    }
}

/// A bounded preview of a payload that never splits a character.
pub fn payload_preview(payload: &str) -> (r: String)
    ensures
        r@ == preview_spec(payload@),
{
    let v = chars_of(payload);
    if v.len() > MAX_PREVIEW_CHARS {
        let mut s = string_from(v.as_slice(), 0, MAX_PREVIEW_CHARS);
        append_str(&mut s, "...");
        s
    } else {
        assert(v@.subrange(0, v@.len() as int) =~= v@);
        string_from(v.as_slice(), 0, v.len())
    }
}

} // verus!
