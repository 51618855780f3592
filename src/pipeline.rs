//! Drives bytes through framing, decoding and normalization, for one stream.

use vstd::prelude::*;
use crate::buffer::{ChunkBuffer, NEWLINE};
use crate::decoder::{ProviderEvent, decode_ndjson, decode_plain, decode_typed, ndjson_event, plain_event, typed_event};
use crate::framing::{Frame, FrameView, Framing, frame_line, frame_view, line_text};
use crate::json::{Json, json_parsed, parse_json};
use crate::normalize::{NormalizedEvent, StreamErrorKind, normalize, normalized};

verus! {

/// The event a JSON payload stands for in `framing`; `None` where its structure is not
/// one the schema knows.
pub open spec fn decoded(framing: Framing, j: Json) -> Option<ProviderEvent> {
    match framing {
        Framing::Ndjson => Some(ndjson_event(j)),
        Framing::SsePlain => Some(plain_event(j)),
        Framing::SseTyped => typed_event(j),
    }
}

/// Whether a line is a payload frame that cannot be decoded: its text is no JSON, or a
/// JSON value whose structure the schema does not know.
pub open spec fn is_malformed(framing: Framing, line: Seq<u8>) -> bool {
    match frame_view(framing, line_text(line)) {
        FrameView::Payload(p) => match json_parsed(p) {
            Some(j) => decoded(framing, j) is None,
            None => true,
        },
        _ => false,
    }
}

/// The events of one complete line (without its newline), and whether they end the
/// stream. Lines that are no frame, and malformed frames, give nothing.
pub open spec fn line_events(framing: Framing, line: Seq<u8>) -> (Seq<NormalizedEvent>, bool) {
    match frame_view(framing, line_text(line)) {
        FrameView::Payload(p) => match json_parsed(p) {
            Some(j) => match decoded(framing, j) {
                Some(ev) => normalized(ev),
                None => (seq![], false),
            },
            None => (seq![], false),
        },
        FrameView::End => (seq![NormalizedEvent::StreamEnd], true),
        FrameView::Ignorable => (seq![], false),
    }
}

/// Decodes a JSON payload by the schema of `framing`.
pub fn decode_payload(framing: Framing, j: &Json) -> (r: Option<ProviderEvent>)
    ensures
        r == decoded(framing, *j),
{
    match framing {
        Framing::Ndjson => Some(decode_ndjson(j)),
        Framing::SsePlain => Some(decode_plain(j)),
        Framing::SseTyped => decode_typed(j),
    }
}

/// The events of one complete line (without its newline), and whether they end the
/// stream.
pub fn decode_line(framing: Framing, line: &[u8]) -> (r: (Vec<NormalizedEvent>, bool))
    ensures
        r.0@ == line_events(framing, line@).0,
        r.1 == line_events(framing, line@).1,
{
    match frame_line(framing, line) {
        Frame::Payload(p) => match parse_json(p.as_str()) {
            Some(j) => match decode_payload(framing, &j) {
                Some(ev) => normalize(ev),
                None => (Vec::new(), false),
            },
            None => (Vec::new(), false),
        },
        Frame::End => (vec![NormalizedEvent::StreamEnd], true),
        Frame::Ignorable => (Vec::new(), false),
    }
}

/// The state of one stream's decoder.
pub struct DecoderView {
    pub framing: Framing,
    /// The longest line accepted, in bytes.
    pub max_line: nat,
    /// The bytes of the line still open.
    pub pending: Seq<u8>,
    /// Whether a terminal event has been emitted.
    pub done: bool,
    /// Every event emitted so far, in order.
    pub emitted: Seq<NormalizedEvent>,
}

/// The event that reports a line longer than the maximum.
pub open spec fn overflow_event() -> NormalizedEvent {
    NormalizedEvent::StreamError(StreamErrorKind::ResourceExhausted, None)
}

/// One byte more. A newline completes the open line, whose events are emitted; a byte
/// that would make the open line longer than the maximum ends the stream with an
/// overflow error. After the end nothing changes.
pub open spec fn byte_step(st: DecoderView, b: u8) -> DecoderView {
    if st.done {
        st
    } else if b == NEWLINE {
        let (e, t) = line_events(st.framing, st.pending);
        DecoderView { pending: Seq::empty(), done: t, emitted: st.emitted + e, ..st }
    } else if st.pending.len() >= st.max_line {
        DecoderView { done: true, emitted: st.emitted.push(overflow_event()), ..st }
    } else {
        DecoderView { pending: st.pending.push(b), ..st }
    }
}

/// The state after `bytes`, taken one at a time.
pub open spec fn bytes_run(st: DecoderView, bytes: Seq<u8>) -> DecoderView
    decreases bytes.len(),
{
    if bytes.len() == 0 {
        st
    } else {
        byte_step(bytes_run(st, bytes.drop_last()), bytes.last())
    }
}

/// The end of the transport's data: the open line, if any, is taken as a last line, and
/// the stream ends with `StreamEnd` unless that line ended it.
pub open spec fn eof_step(st: DecoderView) -> DecoderView {
    if st.done {
        st
    } else {
        let (e, t) = if st.pending.len() > 0 {
            line_events(st.framing, st.pending)
        } else {
            (seq![], false)
        };
        DecoderView {
            pending: Seq::empty(),
            done: true,
            emitted: st.emitted + e + if t {
                seq![]
            } else {
                seq![NormalizedEvent::StreamEnd]
            },
            ..st
        }
    }
}

/// A transport failure: the stream ends with a network error, whatever the open line
/// holds.
pub open spec fn error_step(st: DecoderView, message: String) -> DecoderView {
    if st.done {
        st
    } else {
        DecoderView {
            done: true,
            emitted: st.emitted.push(
                NormalizedEvent::StreamError(StreamErrorKind::Network, Some(message)),
            ),
            ..st
        }
    }
}

/// A fresh decoder.
pub open spec fn initial(framing: Framing, max_line: nat) -> DecoderView {
    DecoderView { framing, max_line, pending: Seq::empty(), done: false, emitted: Seq::empty() }
}

/// The decoder of one stream: bytes in, normalized events out.
pub struct StreamDecoder {
    framing: Framing,
    max_line: usize,
    buffer: ChunkBuffer,
    done: bool,
    emitted: Ghost<Seq<NormalizedEvent>>,
}

impl View for StreamDecoder {
    type V = DecoderView;

    closed spec fn view(&self) -> DecoderView {
        DecoderView {
            framing: self.framing,
            max_line: self.max_line as nat,
            pending: self.buffer@,
            done: self.done,
            emitted: self.emitted@,
        }
    }
}

impl StreamDecoder {
    /// A decoder for `framing` that accepts lines of up to `max_line` bytes.
    pub fn new(framing: Framing, max_line: usize) -> (r: StreamDecoder)
        ensures
            r@ == initial(framing, max_line as nat),
    {
        StreamDecoder {
            framing,
            max_line,
            buffer: ChunkBuffer::new(),
            done: false,
            emitted: Ghost(Seq::empty()),
        }
    }

    /// Whether the stream has ended.
    pub fn is_done(&self) -> (r: bool)
        ensures
            r == self@.done,
    {
        self.done
    }

    /// Takes a chunk of bytes and returns the events it completes, in order.
    pub fn feed(&mut self, chunk: &[u8]) -> (r: Vec<NormalizedEvent>)
        ensures
            final(self)@ == bytes_run(old(self)@, chunk@),
            final(self)@.emitted == old(self)@.emitted + r@,
    {
        let mut out: Vec<NormalizedEvent> = Vec::new();
        let mut i: usize = 0;
        let ghost start = self@;
        assert(chunk@.subrange(0, 0) =~= Seq::<u8>::empty());
        assert(start.emitted + out@ =~= start.emitted);
        while i < chunk.len()
            invariant
                i <= chunk@.len(),
                self@ == bytes_run(start, chunk@.subrange(0, i as int)),
                self@.emitted == start.emitted + out@,
            decreases chunk.len() - i,
        {
            let b = chunk[i];
            assert(chunk@.subrange(0, i + 1).drop_last() == chunk@.subrange(0, i as int));
            assert(chunk@.subrange(0, i + 1).last() == b);
            if self.done {
            } else if b == NEWLINE {
                let line = self.buffer.push_byte(b).unwrap();
                let (mut events, t) = decode_line(self.framing, line.as_slice());
                let ghost before = out@;
                let ghost e = events@;
                out.append(&mut events);
                self.done = t;
                proof {
                    self.emitted@ = self.emitted@ + e;
                    assert(self@.emitted =~= start.emitted + out@);
                }
            } else if self.buffer.pending_len() >= self.max_line {
                out.push(NormalizedEvent::StreamError(StreamErrorKind::ResourceExhausted, None));
                self.done = true;
                proof {
                    self.emitted@ = self.emitted@.push(overflow_event());
                    assert(self@.emitted =~= start.emitted + out@);
                }
            } else {
                self.buffer.push_byte(b);
            }
            i = i + 1;
        }
        assert(chunk@.subrange(0, chunk@.len() as int) == chunk@);
        out
    }

    /// Ends the stream because the transport has no more data; returns the last events.
    pub fn finish(&mut self) -> (r: Vec<NormalizedEvent>)
        ensures
            final(self)@ == eof_step(old(self)@),
            final(self)@.emitted == old(self)@.emitted + r@,
    {
        if self.done {
            assert(old(self)@.emitted + Seq::<NormalizedEvent>::empty() =~= old(self)@.emitted);
            return Vec::new();
        }
        let mut out: Vec<NormalizedEvent> = Vec::new();
        let mut ended = false;
        let ghost st = old(self)@;
        let ghost et = if st.pending.len() > 0 {
            line_events(st.framing, st.pending)
        } else {
            (Seq::<NormalizedEvent>::empty(), false)
        };
        if self.buffer.pending_len() > 0 {
            let line = self.buffer.push_byte(NEWLINE).unwrap();
            let (events, t) = decode_line(self.framing, line.as_slice());
            out = events;
            ended = t;
        } else {
            self.buffer.push_byte(NEWLINE);
        }
        assert(out@ == et.0 && ended == et.1);
        if !ended {
            out.push(NormalizedEvent::StreamEnd);
        }
        self.done = true;
        proof {
            self.emitted@ = self.emitted@ + out@;
            let tail = if et.1 {
                Seq::<NormalizedEvent>::empty()
            } else {
                seq![NormalizedEvent::StreamEnd]
            };
            assert(out@ =~= et.0 + tail);
            assert(self@.emitted =~= st.emitted + et.0 + tail);
            assert(self@.pending =~= Seq::<u8>::empty());
        }
        out
    }

    /// Ends the stream because the transport failed with `message`; returns the error
    /// event, or nothing if the stream had already ended.
    pub fn fail(&mut self, message: String) -> (r: Vec<NormalizedEvent>)
        ensures
            final(self)@ == error_step(old(self)@, message),
            final(self)@.emitted == old(self)@.emitted + r@,
    {
        if self.done {
            assert(old(self)@.emitted + Seq::<NormalizedEvent>::empty() =~= old(self)@.emitted);
            return Vec::new();
        }
        let ev = NormalizedEvent::StreamError(StreamErrorKind::Network, Some(message));
        self.done = true;
        proof {
            self.emitted@ = self.emitted@.push(ev);
        }
        let out = vec![ev];
        assert(out@ =~= seq![ev]);
        assert(self@.emitted =~= old(self)@.emitted + out@);
        out
    }
}

} // verus!
