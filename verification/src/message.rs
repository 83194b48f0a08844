//! What a parser hands back for one chunk of bytes.
use vstd::prelude::*;

verus! {

/// A structured decode result: the operation that a payload names.
///
/// Its view is the operation as a sequence of characters. The message with the empty
/// operation is the placeholder that stands in wherever decoding produced nothing.
#[derive(Debug, PartialEq, Eq)]
pub struct Message {
    operation: String,
}

impl View for Message {
    type V = Seq<char>;

    closed spec fn view(&self) -> Seq<char> {
        self.operation@
    }
}

impl Message {
    /// The message that names `operation`.
    pub fn new(operation: String) -> (message: Message)
        ensures
            message@ == operation@,
    {
        Message { operation }
    }

    /// The placeholder message: its operation is empty.
    pub fn new_empty() -> (message: Message)
        ensures
            message@ == Seq::<char>::empty(),
    {
        Message { operation: String::new() }
    }

    /// The operation that this message names.
    pub fn operation(&self) -> (operation: &str)
        ensures
            operation@ == self@,
    {
        self.operation.as_str()
    }
}

impl Clone for Message {
    fn clone(&self) -> (copy: Message)
        ensures
            copy@ == self@,
    {
        Message { operation: self.operation.clone() }
    }
}

/// The view of a [`ParseOutcome`].
pub enum ParseOutcomeView {
    /// A message, by its operation.
    Decoded(Seq<char>),
    /// A record, by its bytes.
    Raw(Seq<u8>),
    /// A decode failure.
    Failed,
}

impl ParseOutcomeView {
    /// The operation of the message that the outcome stands for: the decoded one, and
    /// the empty one where nothing was decoded.
    pub open spec fn message(self) -> Seq<char> {
        match self {
            ParseOutcomeView::Decoded(operation) => operation,
            ParseOutcomeView::Raw(_) => Seq::<char>::empty(),
            ParseOutcomeView::Failed => Seq::<char>::empty(),
        }
    }
}

/// What one parser made of one chunk.
#[derive(Debug, PartialEq, Eq)]
pub enum ParseOutcome {
    /// The chunk decoded to a structured message.
    Decoded(Message),
    /// The chunk was taken as an opaque record and kept as the bytes it came as.
    Raw(Vec<u8>),
    /// The chunk did not decode. This is the record of the failure; the message that
    /// goes on in its place is the placeholder.
    Failed,
}

impl View for ParseOutcome {
    type V = ParseOutcomeView;

    open spec fn view(&self) -> ParseOutcomeView {
        match self {
            ParseOutcome::Decoded(message) => ParseOutcomeView::Decoded(message@),
            ParseOutcome::Raw(bytes) => ParseOutcomeView::Raw(bytes@),
            ParseOutcome::Failed => ParseOutcomeView::Failed,
        }
    }
}

impl Clone for ParseOutcome {
    fn clone(&self) -> (copy: ParseOutcome)
        ensures
            copy@ == self@,
    {
        match self {
            ParseOutcome::Decoded(message) => ParseOutcome::Decoded(message.clone()),
            ParseOutcome::Raw(bytes) => ParseOutcome::Raw(bytes.clone()),
            ParseOutcome::Failed => ParseOutcome::Failed,
        }
    }
}

impl ParseOutcome {
    /// The message that the outcome stands for. Decoding never comes back empty-handed:
    /// where no message was decoded, this is the placeholder.
    pub fn message(&self) -> (message: Message)
        ensures
            message@ == self@.message(),
    {
        match self {
            ParseOutcome::Decoded(message) => message.clone(),
            ParseOutcome::Raw(_) => Message::new_empty(),
            ParseOutcome::Failed => Message::new_empty(),
        }
    }

    /// Whether the outcome records a decode failure.
    pub fn is_failure(&self) -> (failed: bool)
        ensures
            failed == (self@ is Failed),
    {
        match self {
            ParseOutcome::Failed => true,
            _ => false,
        }
    }
}

} // verus!
