//! The read loop of one connection, as a state machine.
//!
//! The machine does no I/O. Whoever owns the socket reads from it and tells the handler
//! what happened, one event at a time; the handler decides what that means and says so
//! in the step it returns.
use crate::buffer::buffer_bytes;
use crate::codec::{dispatch_trace, framed, trace_view, MyBytesCodec};
use crate::message::{ParseOutcome, ParseOutcomeView};
use crate::parser::ParserHandle;
use vstd::prelude::*;

verus! {

/// Where a connection stands.
#[derive(Clone, Copy, Debug, PartialEq, Eq, Structural)]
pub enum ConnectionState {
    /// Accepted; nothing has been read yet.
    Open,
    /// Reading and dispatching.
    Reading,
    /// Ended by the peer closing the stream.
    Closed,
    /// Ended by a failed read.
    Failed,
}

impl ConnectionState {
    /// Whether the connection has ended. An ended connection stays as it is.
    pub open spec fn is_terminal(self) -> bool {
        self is Closed || self is Failed
    }
}

/// What the owner of the socket reports to the handler.
#[derive(Debug)]
pub enum ReadEvent {
    /// A read went through. What it brought, if anything, is in the buffer.
    Bytes,
    /// The peer closed the stream, and no read had failed.
    EndOfStream,
    /// A read failed; the text says how.
    IoError(String),
}

/// The view of a [`ReadEvent`].
pub enum ReadEventView {
    Bytes,
    EndOfStream,
    IoError(Seq<char>),
}

impl View for ReadEvent {
    type V = ReadEventView;

    open spec fn view(&self) -> ReadEventView {
        match self {
            ReadEvent::Bytes => ReadEventView::Bytes,
            ReadEvent::EndOfStream => ReadEventView::EndOfStream,
            ReadEvent::IoError(error) => ReadEventView::IoError(error@),
        }
    }
}

/// The record that a connection leaves when it ends.
#[derive(Debug, PartialEq, Eq)]
pub enum TerminalRecord {
    /// The peer closed the stream: the connection completed.
    Completed,
    /// A read failed, with the error's text.
    Failed(String),
}

/// The view of a [`TerminalRecord`].
pub enum TerminalRecordView {
    Completed,
    Failed(Seq<char>),
}

impl View for TerminalRecord {
    type V = TerminalRecordView;

    open spec fn view(&self) -> TerminalRecordView {
        match self {
            TerminalRecord::Completed => TerminalRecordView::Completed,
            TerminalRecord::Failed(error) => TerminalRecordView::Failed(error@),
        }
    }
}

/// What the handler did with one event, and so what its owner does next.
#[derive(Debug)]
pub enum Step {
    /// The buffer held nothing to frame. Read again.
    Pending,
    /// A frame was taken from the buffer and dispatched. Read again.
    Dispatched { frame: Vec<u8>, trace: Vec<Option<ParseOutcome>> },
    /// The connection ended with this event. Report the record and release the
    /// connection.
    Finished(TerminalRecord),
    /// The connection had ended before. Nothing was done.
    Ignored,
}

/// The view of a [`Step`].
pub enum StepView {
    Pending,
    Dispatched { frame: Seq<u8>, trace: Seq<Option<ParseOutcomeView>> },
    Finished(TerminalRecordView),
    Ignored,
}

impl View for Step {
    type V = StepView;

    open spec fn view(&self) -> StepView {
        match self {
            Step::Pending => StepView::Pending,
            Step::Dispatched { frame, trace } => StepView::Dispatched {
                frame: frame@,
                trace: trace_view(trace@),
            },
            Step::Finished(record) => StepView::Finished(record@),
            Step::Ignored => StepView::Ignored,
        }
    }
}

/// The state that `event` moves a connection in `state` to.
pub open spec fn next_state(state: ConnectionState, event: ReadEventView) -> ConnectionState {
    if state.is_terminal() {
        state
    } else {
        match event {
            ReadEventView::Bytes => ConnectionState::Reading,
            ReadEventView::EndOfStream => ConnectionState::Closed,
            ReadEventView::IoError(_) => ConnectionState::Failed,
        }
    }
}

/// The step that a connection in `state`, with the parsers `registry` and a buffer that
/// holds `available`, takes on `event`.
pub open spec fn step_of(
    state: ConnectionState,
    registry: Seq<ParserHandle>,
    available: Seq<u8>,
    event: ReadEventView,
) -> StepView {
    if state.is_terminal() {
        StepView::Ignored
    } else {
        match event {
            ReadEventView::Bytes => match framed(available) {
                Some(frame) => StepView::Dispatched {
                    frame,
                    trace: dispatch_trace(registry, frame),
                },
                None => StepView::Pending,
            },
            ReadEventView::EndOfStream => StepView::Finished(TerminalRecordView::Completed),
            ReadEventView::IoError(error) => StepView::Finished(
                TerminalRecordView::Failed(error),
            ),
        }
    }
}

/// What the buffer holds after the step: a read that went through on a live connection
/// has it framed, which empties it; nothing else touches it.
pub open spec fn buffer_after(
    state: ConnectionState,
    available: Seq<u8>,
    event: ReadEventView,
) -> Seq<u8> {
    if !state.is_terminal() && event is Bytes {
        Seq::<u8>::empty()
    } else {
        available
    }
}

/// The handler of one connection: its codec and where it stands.
pub struct ConnectionHandler {
    codec: MyBytesCodec,
    state: ConnectionState,
}

impl ConnectionHandler {
    /// Where the connection stands.
    pub closed spec fn state_of(&self) -> ConnectionState {
        self.state
    }

    /// The parsers that the connection's frames are dispatched over.
    pub closed spec fn registry(&self) -> Seq<ParserHandle> {
        self.codec.registry()
    }

    /// The handler of a connection that has just been accepted.
    pub fn new(codec: MyBytesCodec) -> (handler: ConnectionHandler)
        ensures
            handler.state_of() == ConnectionState::Open,
            handler.registry() == codec.registry(),
    {
        ConnectionHandler { codec, state: ConnectionState::Open }
    }

    /// Where the connection stands.
    pub fn state(&self) -> (state: ConnectionState)
        ensures
            state == self.state_of(),
    {
        self.state
    }

    /// Takes one event. On a read that went through, the handler frames what the buffer
    /// holds and dispatches the frame before it returns, so frames are dispatched in the
    /// order they arrived and one at a time. The end of the stream and a failed read
    /// each end the connection with a record of their own. Once ended, the handler
    /// ignores whatever else it is told. The registry stays as it was.
    pub fn step(&mut self, event: ReadEvent, buf: &mut bytes::BytesMut) -> (step: Step)
        ensures
            step@ == step_of(
                old(self).state_of(),
                old(self).registry(),
                buffer_bytes(*old(buf)),
                event@,
            ),
            final(self).state_of() == next_state(old(self).state_of(), event@),
            final(self).registry() == old(self).registry(),
            buffer_bytes(*final(buf)) == buffer_after(
                old(self).state_of(),
                buffer_bytes(*old(buf)),
                event@,
            ),
    {
        match self.state {
            ConnectionState::Closed => Step::Ignored,
            ConnectionState::Failed => Step::Ignored,
            _ => match event {
                ReadEvent::Bytes => {
                    self.state = ConnectionState::Reading;
                    match self.codec.decode(buf) {
                        Some(frame) => {
                            let trace = self.codec.dispatch(&frame);
                            Step::Dispatched { frame, trace }
                        },
                        None => Step::Pending,
                    }
                },
                ReadEvent::EndOfStream => {
                    self.state = ConnectionState::Closed;
                    Step::Finished(TerminalRecord::Completed)
                },
                ReadEvent::IoError(error) => {
                    self.state = ConnectionState::Failed;
                    Step::Finished(TerminalRecord::Failed(error))
                },
            },
        }
    }
}

/// A clean close and a failed read leave different records: from any state in which the
/// connection is live, the end of the stream and a read error, whatever its text, lead
/// to different steps and to different states, and both end the connection.
pub proof fn lemma_close_and_failure_are_told_apart(
    state: ConnectionState,
    registry: Seq<ParserHandle>,
    available: Seq<u8>,
    error: Seq<char>,
)
    requires
        !state.is_terminal(),
    ensures
        step_of(state, registry, available, ReadEventView::EndOfStream) == StepView::Finished(
            TerminalRecordView::Completed,
        ),
        step_of(state, registry, available, ReadEventView::IoError(error)) == StepView::Finished(
            TerminalRecordView::Failed(error),
        ),
        step_of(state, registry, available, ReadEventView::EndOfStream) != step_of(
            state,
            registry,
            available,
            ReadEventView::IoError(error),
        ),
        next_state(state, ReadEventView::EndOfStream) == ConnectionState::Closed,
        next_state(state, ReadEventView::IoError(error)) == ConnectionState::Failed,
        next_state(state, ReadEventView::EndOfStream) != next_state(
            state,
            ReadEventView::IoError(error),
        ),
{
}

/// A read that went through never ends a connection, whatever its frame decoded to: a
/// live connection goes on reading after it, and the step is either pending or the
/// dispatch of a frame. A decode failure is a matter of a trace's entry and of nothing
/// else.
pub proof fn lemma_read_keeps_the_connection_live(
    state: ConnectionState,
    registry: Seq<ParserHandle>,
    available: Seq<u8>,
)
    requires
        !state.is_terminal(),
    ensures
        next_state(state, ReadEventView::Bytes) == ConnectionState::Reading,
        !next_state(state, ReadEventView::Bytes).is_terminal(),
        available.len() == 0 ==> step_of(state, registry, available, ReadEventView::Bytes)
            == StepView::Pending,
        available.len() > 0 ==> step_of(state, registry, available, ReadEventView::Bytes)
            == (StepView::Dispatched { frame: available, trace: dispatch_trace(registry, available) }),
{
}

/// An ended connection stays ended: no event moves it, none is acted on, and its
/// buffer is left alone. There is no retry and no reconnection.
pub proof fn lemma_ended_connection_stays_ended(
    state: ConnectionState,
    registry: Seq<ParserHandle>,
    available: Seq<u8>,
    event: ReadEventView,
)
    requires
        state.is_terminal(),
    ensures
        next_state(state, event) == state,
        step_of(state, registry, available, event) == StepView::Ignored,
        buffer_after(state, available, event) == available,
{
}

/// With no parser registered a live connection still frames whatever its buffer holds,
/// and the dispatch of the frame asks no parser: the trace is empty, and nothing fails.
pub proof fn lemma_empty_registry_still_frames(state: ConnectionState, available: Seq<u8>)
    requires
        !state.is_terminal(),
        available.len() > 0,
    ensures
        framed(available) == Some(available),
        dispatch_trace(Seq::<ParserHandle>::empty(), available) == Seq::<
            Option<ParseOutcomeView>,
        >::empty(),
        step_of(state, Seq::<ParserHandle>::empty(), available, ReadEventView::Bytes)
            == (StepView::Dispatched {
            frame: available,
            trace: Seq::<Option<ParseOutcomeView>>::empty(),
        }),
        next_state(state, ReadEventView::Bytes) == ConnectionState::Reading,
{
}

} // verus!
