//! The frame decoder and the dispatch of each frame over the parser registry.
use crate::buffer::{buffer_bytes, buffer_extend};
use crate::message::{ParseOutcome, ParseOutcomeView};
use crate::parser::ParserHandle;
use vstd::prelude::*;

verus! {

/// The frame that a buffer holding `available` gives: none while it holds nothing, else
/// whatever it holds, all of it. A frame has no boundary but the moment of decoding.
pub open spec fn framed(available: Seq<u8>) -> Option<Seq<u8>> {
    if available.len() == 0 {
        None
    } else {
        Some(available)
    }
}

/// The trace of dispatching `frame` over `registry`: one entry for each parser, in the
/// registry's order. Each parser's entry rests on that parser and the frame alone, so a
/// frame may be decoded by none of the parsers, by one, or by several.
pub open spec fn dispatch_trace(registry: Seq<ParserHandle>, frame: Seq<u8>) -> Seq<
    Option<ParseOutcomeView>,
> {
    Seq::new(registry.len(), |i: int| registry[i].dispatched(frame))
}

/// The views of the entries of a trace.
pub open spec fn trace_view(trace: Seq<Option<ParseOutcome>>) -> Seq<Option<ParseOutcomeView>> {
    Seq::new(
        trace.len(),
        |i: int|
            match trace[i] {
                Some(outcome) => Some(outcome@),
                None => None,
            },
    )
}

/// Carves a connection's buffer into frames and offers each frame to every parser of
/// its registry.
pub struct MyBytesCodec {
    parsers: Vec<ParserHandle>,
}

impl MyBytesCodec {
    /// The parsers of the codec, in the order they are asked. It is settled when the
    /// codec is made: no operation of the codec changes it.
    pub closed spec fn registry(&self) -> Seq<ParserHandle> {
        self.parsers@
    }

    /// The codec over the registry `parsers`.
    pub fn new(parsers: Vec<ParserHandle>) -> (codec: MyBytesCodec)
        ensures
            codec.registry() == parsers@,
    {
        MyBytesCodec { parsers }
    }

    /// The parsers of the codec, in the order they are asked.
    pub fn parsers(&self) -> (parsers: &Vec<ParserHandle>)
        ensures
            parsers@ == self.registry(),
    {
        &self.parsers
    }

    /// Takes the next frame out of `buf`. While the buffer is empty there is none, which
    /// is no error and no end of the stream. Else the frame is all that the buffer
    /// holds, and the buffer is left empty.
    pub fn decode(&mut self, buf: &mut bytes::BytesMut) -> (frame: Option<Vec<u8>>)
        ensures
            frame is Some <==> buffer_bytes(*old(buf)).len() > 0,
            frame matches Some(bytes) ==> bytes@ == buffer_bytes(*old(buf)),
            buffer_bytes(*final(buf)) == Seq::<u8>::empty(),
            *final(self) == *old(self),
    {
        if buf.len() == 0 {
            return None;
        }
        let data = vstd::slice::slice_to_vec(buf);
        buf.clear();
        Some(data)
    }

    /// Writes `data` out: appends it to `buf` as it is.
    pub fn encode(&mut self, data: Vec<u8>, buf: &mut bytes::BytesMut)
        requires
            buffer_bytes(*old(buf)).len() + data@.len() <= isize::MAX,
        ensures
            buffer_bytes(*final(buf)) == buffer_bytes(*old(buf)) + data@,
            *final(self) == *old(self),
    {
        buffer_extend(buf, data);
    }

    /// Offers `frame` to every parser of the registry, first to last. Each parser is
    /// asked once whether it claims the frame, and decodes it if and only if it does;
    /// what one parser answers has no bearing on whether the next is asked.
    pub fn dispatch(&self, frame: &Vec<u8>) -> (trace: Vec<Option<ParseOutcome>>)
        ensures
            trace@.len() == self.registry().len(),
            forall|i: int|
                0 <= i < trace@.len() ==> (#[trigger] trace@[i] is Some
                    <==> self.registry()[i].detects(frame@)),
            forall|i: int|
                0 <= i < trace@.len() && self.registry()[i].detects(frame@) ==> (
                #[trigger] trace@[i])->0@ == self.registry()[i].decodes(frame@),
            trace_view(trace@) == dispatch_trace(self.registry(), frame@),
    {
        let mut trace: Vec<Option<ParseOutcome>> = Vec::new();
        let mut i: usize = 0;
        while i < self.parsers.len()
            invariant
                i <= self.parsers@.len(),
                trace@.len() == i,
                forall|j: int|
                    0 <= j < i ==> (#[trigger] trace@[j] is Some
                        <==> self.parsers@[j].detects(frame@)),
                forall|j: int|
                    0 <= j < i && self.parsers@[j].detects(frame@) ==> (
                    #[trigger] trace@[j])->0@ == self.parsers@[j].decodes(frame@),
            decreases self.parsers@.len() - i,
        {
            let outcome = self.parsers[i].dispatch(frame);
            trace.push(outcome);
            i = i + 1;
        }
        trace
    }
}

impl Clone for MyBytesCodec {
    /// A codec for another connection over the same registry: its handles lead to the
    /// parsers that this codec's handles lead to.
    fn clone(&self) -> (shared: MyBytesCodec)
        ensures
            shared.registry() == self.registry(),
    {
        let mut parsers: Vec<ParserHandle> = Vec::new();
        let mut i: usize = 0;
        while i < self.parsers.len()
            invariant
                i <= self.parsers@.len(),
                parsers@ == self.parsers@.subrange(0, i as int),
            decreases self.parsers@.len() - i,
        {
            parsers.push(self.parsers[i].clone());
            i = i + 1;
        }
        MyBytesCodec { parsers }
    }
}

/// Dispatch fans out. The entry of a parser rests on that parser and the frame, not on
/// its place or on the parsers around it: registries that hold the same parser at `i`
/// give the same entry at `i`, whatever else they hold, and the entry is there if and
/// only if that parser claims the frame.
pub proof fn lemma_dispatch_fans_out(
    registry: Seq<ParserHandle>,
    other: Seq<ParserHandle>,
    frame: Seq<u8>,
    i: int,
)
    requires
        0 <= i < registry.len(),
        i < other.len(),
        other[i] == registry[i],
    ensures
        dispatch_trace(registry, frame).len() == registry.len(),
        dispatch_trace(registry, frame)[i] is Some <==> registry[i].detects(frame),
        registry[i].detects(frame) ==> dispatch_trace(registry, frame)[i] == Some(
            registry[i].decodes(frame),
        ),
        dispatch_trace(other, frame)[i] == dispatch_trace(registry, frame)[i],
{
}

/// Connections that share a registry stay apart. Where two codecs hold the same
/// registry and one dispatches `mine` while the other dispatches `theirs`, every entry
/// of the first trace is what its parser makes of `mine`, and every entry of the second
/// what the same parser makes of `theirs`: no byte of one connection bears on what the
/// other is handed.
pub proof fn lemma_shared_registry_keeps_frames_apart(
    first: MyBytesCodec,
    second: MyBytesCodec,
    mine: Seq<u8>,
    theirs: Seq<u8>,
)
    requires
        second.registry() == first.registry(),
    ensures
        dispatch_trace(first.registry(), mine).len() == first.registry().len(),
        dispatch_trace(second.registry(), theirs).len() == first.registry().len(),
        forall|i: int|
            0 <= i < first.registry().len() ==> #[trigger] dispatch_trace(
                first.registry(),
                mine,
            )[i] == first.registry()[i].dispatched(mine),
        forall|i: int|
            0 <= i < first.registry().len() ==> #[trigger] dispatch_trace(
                second.registry(),
                theirs,
            )[i] == first.registry()[i].dispatched(theirs),
{
}

} // verus!
