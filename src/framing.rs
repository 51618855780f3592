//! Turns one line into a frame of one of the three wire formats.

use vstd::prelude::*;
use crate::text::{decode_lossy, has_prefix, same_text, strip_prefix, trim, trimmed, utf8_lossy};

verus! {

/// The wire format of a stream.
#[derive(Debug, Clone, Copy, PartialEq, Eq, Structural)]
pub enum Framing {
    /// One JSON object per line; a `"done": true` member ends the stream.
    Ndjson,
    /// Server-sent events whose `data: ` payloads are JSON, ended by the payload `[DONE]`.
    SsePlain,
    /// Server-sent events whose JSON payloads name their kind in a `type` member; an
    /// `event: message_stop` line or a payload of that type ends the stream.
    SseTyped,
}

/// The text of a line: its bytes decoded (invalid sequences replaced), then trimmed.
pub open spec fn line_text(line: Seq<u8>) -> Seq<char> {
    trimmed(utf8_lossy(line))
}

/// A line of the stream as a frame.
#[derive(Debug, Clone, PartialEq, Eq)]
pub enum Frame {
    /// A payload for the decoder.
    Payload(String),
    /// A marker that ends the stream.
    End,
    /// Nothing for the decoder: blank lines and unknown prefixes.
    Ignorable,
}

/// The model of a frame.
pub enum FrameView {
    Payload(Seq<char>),
    End,
    Ignorable,
}

impl View for Frame {
    type V = FrameView;

    open spec fn view(&self) -> FrameView {
        match self {
            Frame::Payload(p) => FrameView::Payload(p@),
            Frame::End => FrameView::End,
            Frame::Ignorable => FrameView::Ignorable,
        }
    }
}

/// `text` without its first `n` characters.
pub open spec fn after(text: Seq<char>, n: nat) -> Seq<char> {
    text.subrange(n as int, text.len() as int)
}

/// The frame that the (decoded and trimmed) text of a line is in `framing`.
pub open spec fn frame_view(framing: Framing, text: Seq<char>) -> FrameView {
    match framing {
        Framing::Ndjson => if text.len() == 0 {
            FrameView::Ignorable
        } else {
            FrameView::Payload(text)
        },
        Framing::SsePlain => if has_prefix(text, "data: "@) {
            if after(text, "data: "@.len()) == "[DONE]"@ {
                FrameView::End
            } else {
                FrameView::Payload(after(text, "data: "@.len()))
            }
        } else {
            FrameView::Ignorable
        },
        Framing::SseTyped => if has_prefix(text, "data: "@) {
            FrameView::Payload(after(text, "data: "@.len()))
        } else if has_prefix(text, "event: "@) && after(text, "event: "@.len())
            == "message_stop"@ {
            FrameView::End
        } else {
            FrameView::Ignorable
        },
    }
}

/// The frame that a line (without its newline) is in `framing`.
pub fn frame_line(framing: Framing, line: &[u8]) -> (r: Frame)
    ensures
        r@ == frame_view(framing, line_text(line@)),
{
    let decoded = decode_lossy(line);
    let text = trim(decoded.as_str());
    match framing {
        Framing::Ndjson => {
            if text.unicode_len() == 0 {
                Frame::Ignorable
            } else {
                Frame::Payload(text.to_string())
            }
        },
        Framing::SsePlain => match strip_prefix(text, "data: ") {
            Some(payload) => {
                if same_text(payload, "[DONE]") {
                    Frame::End
                } else {
                    Frame::Payload(payload.to_string())
                }
            },
            None => Frame::Ignorable,
        },
        Framing::SseTyped => match strip_prefix(text, "data: ") {
            Some(payload) => Frame::Payload(payload.to_string()),
            None => match strip_prefix(text, "event: ") {
                Some(name) => {
                    if same_text(name, "message_stop") {
                        Frame::End
                    } else {
                        Frame::Ignorable
                    }
                },
                None => Frame::Ignorable,
            },
        },
    }
}

} // verus!
