//! The parser for JSON text that names an operation.
//!
//! Reading JSON is left to `serde_json`. What the parser itself decides is which
//! documents are messages: objects that have a member `operation` whose value is a
//! string. That decision is made here, on the members that `serde_json` read.
use crate::message::{Message, ParseOutcome, ParseOutcomeView};
use crate::parser::MessageProtocolParser;
use vstd::prelude::*;
use vstd::string::StringSliceAdditionalSpecFns;
use vstd::utf8::{decode_utf8, encode_utf8_decode_utf8, valid_utf8};

verus! {

/// The name of the member that holds a message's operation.
pub const OPERATION_MEMBER: &'static str = "operation";

/// A member of a JSON object, as far as the parser reads it: its name, and its value
/// where that is a string.
#[derive(Debug, PartialEq, Eq)]
pub struct JsonMember {
    pub name: String,
    /// The member's value if it is a string, and `None` for a value of any other kind.
    pub text: Option<String>,
}

impl View for JsonMember {
    type V = (Seq<char>, Option<Seq<char>>);

    open spec fn view(&self) -> (Seq<char>, Option<Seq<char>>) {
        (
            self.name@,
            match self.text {
                Some(text) => Some(text@),
                None => None,
            },
        )
    }
}

/// The views of the members of an object.
pub open spec fn members_view(members: Seq<JsonMember>) -> Seq<(Seq<char>, Option<Seq<char>>)> {
    Seq::new(members.len(), |i: int| members[i]@)
}

/// The members of the JSON object that `text` spells, each with its name and, where its
/// value is a string, that string, escapes resolved; in the order in which `serde_json`
/// hands the members of an object out. `None` where `text` is not one JSON document, or
/// the document is not an object. This is what `serde_json` reads from the text; see
/// [`read_json_object`].
pub uninterp spec fn json_object_members(text: Seq<char>) -> Option<
    Seq<(Seq<char>, Option<Seq<char>>)>,
>;

/// Reads `text` with `serde_json::from_str` as a `serde_json::Value` and, where that
/// is an object, hands its members out as plain values. Text that does not parse and a
/// document that is no object come back as `None`. What comes back depends on `text`
/// alone; no more than that is claimed.
#[verifier::external_body]
fn read_json_object(text: &str) -> (members: Option<Vec<JsonMember>>)
    ensures
        members is Some <==> json_object_members(text@) is Some,
        members matches Some(read) ==> json_object_members(text@) == Some(members_view(read@)),
{
    match serde_json::from_str::<serde_json::Value>(text) {
        Ok(serde_json::Value::Object(object)) => Some(
            object.into_iter().map(|(name, value)| match value {
                serde_json::Value::String(text) => JsonMember { name, text: Some(text) },
                _ => JsonMember { name, text: None },
            }).collect(),
        ),
        _ => None,
    }
}

/// `std::str::from_utf8`: the bytes as text where they are valid UTF-8, and `None` where
/// they are not. The text's encoding is the bytes it was made from.
#[verifier::external_body]
fn utf8_text(bytes: &[u8]) -> (text: Option<&str>)
    ensures
        text is Some <==> valid_utf8(bytes@),
        text matches Some(decoded) ==> decoded.spec_bytes() == bytes@,
{
    match std::str::from_utf8(bytes) {
        Ok(decoded) => Some(decoded),
        Err(_) => None,
    }
}

/// The string that `members` give for `key`: the value of the first member named `key`
/// if that value is a string, and `None` if it is not or no member has that name.
pub open spec fn string_member(
    members: Seq<(Seq<char>, Option<Seq<char>>)>,
    key: Seq<char>,
) -> Option<Seq<char>>
    decreases members.len(),
{
    if members.len() == 0 {
        None
    } else if members[0].0 == key {
        members[0].1
    } else {
        string_member(members.drop_first(), key)
    }
}

/// What the JSON parser makes of a document, given the members read from it, or `None`
/// for a text that is no object: the message that names the string found under
/// `operation`, and a failure where there is no such string.
pub open spec fn document_outcome(
    document: Option<Seq<(Seq<char>, Option<Seq<char>>)>>,
) -> ParseOutcomeView {
    match document {
        Some(members) => match string_member(members, OPERATION_MEMBER@) {
            Some(operation) => ParseOutcomeView::Decoded(operation),
            None => ParseOutcomeView::Failed,
        },
        None => ParseOutcomeView::Failed,
    }
}

/// What the JSON parser decodes `info` to. Bytes that are not UTF-8 fail. Bytes that
/// are decode as the document that their text spells does.
pub open spec fn json_decoded(info: Seq<u8>) -> ParseOutcomeView {
    if valid_utf8(info) {
        document_outcome(json_object_members(decode_utf8(info)))
    } else {
        ParseOutcomeView::Failed
    }
}

/// Looks `key` up among `members`.
pub fn find_string_member(members: &Vec<JsonMember>, key: &str) -> (found: Option<String>)
    ensures
        found is Some <==> string_member(members_view(members@), key@) is Some,
        found matches Some(text) ==> string_member(members_view(members@), key@) == Some(text@),
{
    let wanted = key.to_owned();
    let mut i: usize = 0;
    assert(members_view(members@).subrange(0, members@.len() as int) =~= members_view(members@));
    while i < members.len()
        invariant
            i <= members@.len(),
            wanted@ == key@,
            string_member(members_view(members@), key@) == string_member(
                members_view(members@).subrange(i as int, members@.len() as int),
                key@,
            ),
        decreases members@.len() - i,
    {
        let ghost rest = members_view(members@).subrange(i as int, members@.len() as int);
        assert(rest.drop_first() =~= members_view(members@).subrange(
            i + 1,
            members@.len() as int,
        ));
        if members[i].name == wanted {
            return match &members[i].text {
                Some(text) => Some(text.clone()),
                None => None,
            };
        }
        i = i + 1;
    }
    None
}

/// Parses chunks as JSON objects with an `operation` member.
#[derive(Clone, Copy, Debug)]
pub struct ExampleJSONParser;

impl ExampleJSONParser {
    /// The JSON parser. It keeps no state.
    pub fn new() -> (parser: ExampleJSONParser) {
        ExampleJSONParser {  }
    }

    /// The outcome for a chunk whose text was read as JSON, with the members that were
    /// read, or with `None` where the text was no object.
    pub fn outcome_of(document: Option<Vec<JsonMember>>) -> (outcome: ParseOutcome)
        ensures
            outcome@ == document_outcome(
                match document {
                    Some(members) => Some(members_view(members@)),
                    None => None,
                },
            ),
    {
        match document {
            Some(members) => match find_string_member(&members, OPERATION_MEMBER) {
                Some(operation) => ParseOutcome::Decoded(Message::new(operation)),
                None => ParseOutcome::Failed,
            },
            None => ParseOutcome::Failed,
        }
    }
}

impl MessageProtocolParser for ExampleJSONParser {
    /// The JSON parser claims every chunk.
    open spec fn detects(&self, info: Seq<u8>) -> bool {
        true
    }

    open spec fn decodes(&self, info: Seq<u8>) -> ParseOutcomeView {
        json_decoded(info)
    }

    fn parse(&self, info: &Vec<u8>) -> (outcome: ParseOutcome) {
        match utf8_text(info.as_slice()) {
            Some(text) => {
                proof {
                    encode_utf8_decode_utf8(text@);
                }
                ExampleJSONParser::outcome_of(read_json_object(text))
            },
            None => ParseOutcome::Failed,
        }
    }

    fn is_message(&self, info: &Vec<u8>) -> (claimed: bool) {
        true
    }
}

} // verus!
