use bytes::BytesMut;
use protocol_dispatch::codec::MyBytesCodec;
use protocol_dispatch::json::ExampleJSONParser;
use protocol_dispatch::kafka::ExampleKafkaParser;
use protocol_dispatch::message::{Message, ParseOutcome};
use protocol_dispatch::parser::{MessageProtocolParser, ParserHandle};
use std::sync::{Arc, Mutex};

#[derive(Debug, Clone, Copy, PartialEq, Eq)]
enum Call {
    IsMessage(usize),
    Parse(usize),
}

/// A parser that notes each call made to it in a log shared with the test.
struct Noting {
    id: usize,
    claims: bool,
    log: Arc<Mutex<Vec<Call>>>,
}

impl MessageProtocolParser for Noting {
    fn parse(&self, info: &Vec<u8>) -> ParseOutcome {
        self.log.lock().unwrap().push(Call::Parse(self.id));
        let mut tagged = vec![self.id as u8];
        tagged.extend_from_slice(info);
        ParseOutcome::Raw(tagged)
    }

    fn is_message(&self, _info: &Vec<u8>) -> bool {
        self.log.lock().unwrap().push(Call::IsMessage(self.id));
        self.claims
    }
}

/// A parser that claims the chunks that start with its magic byte.
struct Magic(u8);

impl MessageProtocolParser for Magic {
    fn parse(&self, info: &Vec<u8>) -> ParseOutcome {
        ParseOutcome::Raw(info[1..].to_vec())
    }

    fn is_message(&self, info: &Vec<u8>) -> bool {
        info.first() == Some(&self.0)
    }
}

fn noting(claims: &[bool]) -> (Vec<ParserHandle>, Arc<Mutex<Vec<Call>>>) {
    let log = Arc::new(Mutex::new(Vec::new()));
    let mut parsers = Vec::new();
    for (id, claims) in claims.iter().enumerate() {
        parsers.push(ParserHandle::new(Box::new(Noting { id, claims: *claims, log: log.clone() })));
    }
    (parsers, log)
}

fn decoded(operation: &str) -> ParseOutcome {
    ParseOutcome::Decoded(Message::new(operation.to_string()))
}

#[test]
fn dispatch_asks_every_parser_once_in_registry_order() {
    let (parsers, log) = noting(&[false, false, false, false]);
    let codec = MyBytesCodec::new(parsers);
    let trace = codec.dispatch(&b"frame".to_vec());
    assert_eq!(trace, vec![None, None, None, None]);
    assert_eq!(
        *log.lock().unwrap(),
        vec![Call::IsMessage(0), Call::IsMessage(1), Call::IsMessage(2), Call::IsMessage(3)]
    );
}

#[test]
fn dispatch_decodes_with_each_parser_that_claims_the_frame() {
    let (parsers, log) = noting(&[true, false, true]);
    let codec = MyBytesCodec::new(parsers);
    let trace = codec.dispatch(&vec![9, 8]);
    assert_eq!(
        trace,
        vec![Some(ParseOutcome::Raw(vec![0, 9, 8])), None, Some(ParseOutcome::Raw(vec![2, 9, 8]))]
    );
    assert_eq!(
        *log.lock().unwrap(),
        vec![
            Call::IsMessage(0),
            Call::Parse(0),
            Call::IsMessage(1),
            Call::IsMessage(2),
            Call::Parse(2),
        ]
    );
}

#[test]
fn dispatch_does_not_stop_at_the_first_match() {
    let (parsers, log) = noting(&[true, true]);
    let codec = MyBytesCodec::new(parsers);
    let trace = codec.dispatch(&vec![7]);
    assert_eq!(
        trace,
        vec![Some(ParseOutcome::Raw(vec![0, 7])), Some(ParseOutcome::Raw(vec![1, 7]))]
    );
    assert_eq!(
        *log.lock().unwrap(),
        vec![Call::IsMessage(0), Call::Parse(0), Call::IsMessage(1), Call::Parse(1)]
    );
}

#[test]
fn dispatch_asks_again_for_every_frame() {
    let (parsers, log) = noting(&[true, false]);
    let codec = MyBytesCodec::new(parsers);
    codec.dispatch(&vec![1]);
    codec.dispatch(&vec![2]);
    assert_eq!(
        *log.lock().unwrap(),
        vec![
            Call::IsMessage(0),
            Call::Parse(0),
            Call::IsMessage(1),
            Call::IsMessage(0),
            Call::Parse(0),
            Call::IsMessage(1),
        ]
    );
}

#[test]
fn dispatch_over_an_empty_registry_asks_nobody() {
    let mut codec = MyBytesCodec::new(Vec::new());
    let mut buf = BytesMut::from(&b"{\"operation\":\"start\"}"[..]);
    let frame = codec.decode(&mut buf).expect("a frame");
    assert_eq!(frame, b"{\"operation\":\"start\"}".to_vec());
    assert_eq!(codec.dispatch(&frame), Vec::new());
}

#[test]
fn dispatch_over_the_two_example_parsers() {
    let codec = MyBytesCodec::new(vec![
        ParserHandle::new(Box::new(ExampleKafkaParser::new())),
        ParserHandle::new(Box::new(ExampleJSONParser::new())),
    ]);
    let frame = b"{\"operation\":\"start\"}".to_vec();
    assert_eq!(
        codec.dispatch(&frame),
        vec![Some(ParseOutcome::Raw(frame.clone())), Some(decoded("start"))]
    );
}

#[test]
fn dispatch_goes_on_after_a_decode_failure() {
    let codec = MyBytesCodec::new(vec![
        ParserHandle::new(Box::new(ExampleJSONParser::new())),
        ParserHandle::new(Box::new(ExampleKafkaParser::new())),
    ]);
    assert_eq!(
        codec.dispatch(&b"{".to_vec()),
        vec![Some(ParseOutcome::Failed), Some(ParseOutcome::Raw(b"{".to_vec()))]
    );
    assert_eq!(
        codec.dispatch(&b"{\"operation\":\"next\"}".to_vec()),
        vec![Some(decoded("next")), Some(ParseOutcome::Raw(b"{\"operation\":\"next\"}".to_vec()))]
    );
}

#[test]
fn dispatch_keeps_the_order_of_the_registry() {
    let forward = MyBytesCodec::new(vec![
        ParserHandle::new(Box::new(ExampleKafkaParser::new())),
        ParserHandle::new(Box::new(ExampleJSONParser::new())),
    ]);
    let backward = MyBytesCodec::new(vec![
        ParserHandle::new(Box::new(ExampleJSONParser::new())),
        ParserHandle::new(Box::new(ExampleKafkaParser::new())),
    ]);
    let frame = b"{\"operation\":\"x\"}".to_vec();
    let mut reversed = backward.dispatch(&frame);
    reversed.reverse();
    assert_eq!(forward.dispatch(&frame), reversed);
}

#[test]
fn dispatch_entry_rests_on_its_own_parser() {
    let alone = MyBytesCodec::new(vec![ParserHandle::new(Box::new(Magic(0x4b)))]);
    let among = MyBytesCodec::new(vec![
        ParserHandle::new(Box::new(ExampleJSONParser::new())),
        ParserHandle::new(Box::new(Magic(0x4b))),
        ParserHandle::new(Box::new(Magic(0x00))),
    ]);
    let claimed = vec![0x4b, 1, 2];
    let unclaimed = vec![0x4c, 1, 2];
    assert_eq!(alone.dispatch(&claimed), vec![Some(ParseOutcome::Raw(vec![1, 2]))]);
    assert_eq!(among.dispatch(&claimed)[1], Some(ParseOutcome::Raw(vec![1, 2])));
    assert_eq!(among.dispatch(&claimed)[2], None);
    assert_eq!(alone.dispatch(&unclaimed), vec![None]);
    assert_eq!(among.dispatch(&unclaimed)[1], None);
}

#[test]
fn codecs_over_a_shared_registry_see_only_their_own_bytes() {
    let (parsers, log) = noting(&[true]);
    let mut registry = parsers;
    registry.push(ParserHandle::new(Box::new(ExampleJSONParser::new())));
    let mut first = MyBytesCodec::new(registry);
    let mut second = first.clone();

    let mut first_buf = BytesMut::from(&b"{\"operation\":\"one\"}"[..]);
    let mut second_buf = BytesMut::from(&b"{\"operation\":\"two\"}"[..]);
    let first_frame = first.decode(&mut first_buf).expect("a frame");
    let second_frame = second.decode(&mut second_buf).expect("a frame");

    let second_trace = second.dispatch(&second_frame);
    let first_trace = first.dispatch(&first_frame);

    let mut first_record = vec![0u8];
    first_record.extend_from_slice(b"{\"operation\":\"one\"}");
    let mut second_record = vec![0u8];
    second_record.extend_from_slice(b"{\"operation\":\"two\"}");
    assert_eq!(first_trace, vec![Some(ParseOutcome::Raw(first_record)), Some(decoded("one"))]);
    assert_eq!(second_trace, vec![Some(ParseOutcome::Raw(second_record)), Some(decoded("two"))]);
    assert_eq!(first.dispatch(&first_frame), first_trace);

    // both codecs reached the one parser that the registry was made with
    assert_eq!(log.lock().unwrap().len(), 6);
}

#[test]
fn codec_clone_has_the_same_registry() {
    let codec = MyBytesCodec::new(vec![
        ParserHandle::new(Box::new(ExampleKafkaParser::new())),
        ParserHandle::new(Box::new(Magic(1))),
        ParserHandle::new(Box::new(ExampleJSONParser::new())),
    ]);
    let shared = codec.clone();
    assert_eq!(shared.parsers().len(), 3);
    for frame in [vec![1u8, 2, 3], b"{\"operation\":\"x\"}".to_vec(), Vec::new(), vec![0xff]] {
        assert_eq!(shared.dispatch(&frame), codec.dispatch(&frame));
    }
}
