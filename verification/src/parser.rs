//! The parser capability and the handle by which a registry holds a parser.
use crate::message::{ParseOutcome, ParseOutcomeView};
use std::sync::Arc;
use vstd::prelude::*;

verus! {

/// One wire format: the test whether a chunk is of this format, and its decoding.
///
/// Both operations take the parser by shared reference and may run on many connections
/// at once, so an implementation that keeps state of its own guards it itself, one call
/// at a time. Whatever it keeps, what it answers is settled by the parser and the bytes
/// it was given: `detects` and `decodes` say what, and the two methods are held to them.
///
/// An implementation states its format by giving `detects` and `decodes` a body. One
/// that gives none is taken to answer by some function of the parser and the bytes,
/// which is left open: of such a parser nothing is known but that it answers alike
/// whenever it is asked alike. For an implementation that Verus does not check, this
/// is the one thing the dispatch relies on.
pub trait MessageProtocolParser: Send + Sync {
    /// Whether the parser claims `info`.
    open spec fn detects(&self, info: Seq<u8>) -> bool {
        arbitrary::<spec_fn(&Self, Seq<u8>) -> bool>()(self, info)
    }

    /// What the parser decodes `info` to.
    open spec fn decodes(&self, info: Seq<u8>) -> ParseOutcomeView {
        arbitrary::<spec_fn(&Self, Seq<u8>) -> ParseOutcomeView>()(self, info)
    }

    /// Decodes `info`. Malformed input is no error: it decodes to
    /// [`ParseOutcome::Failed`].
    fn parse(&self, info: &Vec<u8>) -> (outcome: ParseOutcome)
        ensures
            outcome@ == self.decodes(info@),
    ;

    /// Tests whether `info` is a message of this format.
    fn is_message(&self, info: &Vec<u8>) -> (claimed: bool)
        ensures
            claimed == self.detects(info@),
    ;
}

/// A parser as a registry holds it: shared, and of whatever format.
///
/// Clones of a handle lead to the same parser, so registries built from clones share
/// their parsers.
pub struct ParserHandle {
    parser: Arc<Box<dyn MessageProtocolParser>>,
}

impl ParserHandle {
    /// Whether the parser behind the handle claims `info`.
    pub closed spec fn detects(&self, info: Seq<u8>) -> bool {
        self.parser.detects(info)
    }

    /// What the parser behind the handle decodes `info` to.
    pub closed spec fn decodes(&self, info: Seq<u8>) -> ParseOutcomeView {
        self.parser.decodes(info)
    }

    /// What dispatching `frame` to this parser yields: nothing where the parser does
    /// not claim the frame, and what it decodes the frame to where it does.
    pub open spec fn dispatched(&self, frame: Seq<u8>) -> Option<ParseOutcomeView> {
        if self.detects(frame) {
            Some(self.decodes(frame))
        } else {
            None
        }
    }

    /// A handle to `parser`.
    pub fn new(parser: Box<dyn MessageProtocolParser>) -> (handle: ParserHandle)
        ensures
            forall|info: Seq<u8>| #[trigger] handle.detects(info) == parser.detects(info),
            forall|info: Seq<u8>| #[trigger] handle.decodes(info) == parser.decodes(info),
    {
        let shared = Arc::new(parser);
        ParserHandle { parser: shared }
    }

    /// Tests whether `info` is a message of the parser's format.
    pub fn is_message(&self, info: &Vec<u8>) -> (claimed: bool)
        ensures
            claimed == self.detects(info@),
    {
        self.parser.is_message(info)
    }

    /// Decodes `info` with the parser.
    pub fn parse(&self, info: &Vec<u8>) -> (outcome: ParseOutcome)
        ensures
            outcome@ == self.decodes(info@),
    {
        self.parser.parse(info)
    }

    /// Offers `frame` to the parser: asks it once whether it claims the frame, and has
    /// it decode the frame if and only if it does.
    pub fn dispatch(&self, frame: &Vec<u8>) -> (outcome: Option<ParseOutcome>)
        ensures
            outcome is Some <==> self.detects(frame@),
            outcome matches Some(decoded) ==> decoded@ == self.decodes(frame@),
    {
        if self.parser.is_message(frame) {
            Some(self.parser.parse(frame))
        } else {
            None
        }
    }
}

impl Clone for ParserHandle {
    fn clone(&self) -> (shared: ParserHandle)
        ensures
            shared == *self,
    {
        ParserHandle { parser: self.parser.clone() }
    }
}

} // verus!
