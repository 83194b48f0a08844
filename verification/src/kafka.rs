//! The parser that stands in for a record-oriented binary protocol.
use crate::message::{ParseOutcome, ParseOutcomeView};
use crate::parser::MessageProtocolParser;
use vstd::prelude::*;

verus! {

/// Takes every chunk as one opaque record.
#[derive(Clone, Copy, Debug)]
pub struct ExampleKafkaParser;

impl ExampleKafkaParser {
    /// The record parser. It keeps no state.
    pub fn new() -> (parser: ExampleKafkaParser) {
        ExampleKafkaParser {  }
    }
}

impl MessageProtocolParser for ExampleKafkaParser {
    /// The record parser claims every chunk.
    open spec fn detects(&self, info: Seq<u8>) -> bool {
        true
    }

    /// It looks at no byte: the record is the chunk as it came.
    open spec fn decodes(&self, info: Seq<u8>) -> ParseOutcomeView {
        ParseOutcomeView::Raw(info)
    }

    fn parse(&self, info: &Vec<u8>) -> (outcome: ParseOutcome) {
        ParseOutcome::Raw(info.clone())
    }

    fn is_message(&self, info: &Vec<u8>) -> (claimed: bool) {
        true
    }
}

} // verus!
