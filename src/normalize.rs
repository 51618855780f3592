//! Maps provider events onto the provider-independent event model.

use vstd::prelude::*;
use crate::decoder::ProviderEvent;
use crate::text::same_text;
use crate::types::{FinishReason, Usage};

verus! {

/// What kind of failure ended a stream.
#[derive(Debug, Clone, Copy, PartialEq, Eq, Structural)]
pub enum StreamErrorKind {
    /// The transport failed: a dropped connection or a timeout.
    Network,
    /// The service reported an error in the stream.
    Provider,
    /// A line grew beyond the configured maximum.
    ResourceExhausted,
}

/// A finish-reason code: one of the known reasons, or the code as the wire spelt it.
#[derive(Debug, Clone, PartialEq, Eq)]
pub enum FinishCode {
    Known(FinishReason),
    Unrecognized(String),
}

/// One event of a stream, the same for every provider.
#[derive(Debug, Clone, PartialEq, Eq)]
pub enum NormalizedEvent {
    /// A non-empty fragment of generated text.
    ContentDelta(String),
    /// A non-empty fragment of a tool call's arguments.
    ToolCallDelta(String),
    /// Token counts of the request.
    UsageFinal(Usage),
    /// Why generation stopped.
    FinishReason(FinishCode),
    /// The stream failed; nothing follows.
    StreamError(StreamErrorKind, Option<String>),
    /// The stream ended; nothing follows.
    StreamEnd,
}

/// Whether `e` ends a stream.
pub open spec fn is_terminal(e: NormalizedEvent) -> bool {
    e is StreamError || e is StreamEnd
}

/// Whether `e` ends a stream.
pub fn event_is_terminal(e: &NormalizedEvent) -> (r: bool)
    ensures
        r == is_terminal(*e),
{
    match e {
        NormalizedEvent::StreamError(..) => true,
        NormalizedEvent::StreamEnd => true,
        _ => false,
    }
}

/// The fixed table of finish-reason codes.
pub open spec fn finish_code(code: String) -> FinishCode {
    if code@ == "stop"@ || code@ == "end_turn"@ {
        FinishCode::Known(FinishReason::Stop)
    } else if code@ == "length"@ || code@ == "max_tokens"@ {
        FinishCode::Known(FinishReason::Length)
    } else if code@ == "stop_sequence"@ {
        FinishCode::Known(FinishReason::StopSequence)
    } else if code@ == "tool_calls"@ || code@ == "tool_use"@ || code@ == "function_call"@ {
        FinishCode::Known(FinishReason::ToolCalls)
    } else if code@ == "content_filter"@ {
        FinishCode::Known(FinishReason::ContentFilter)
    } else {
        FinishCode::Unrecognized(code)
    }
}

/// Maps a finish-reason code through the fixed table; an unknown code is kept as it is.
pub fn map_finish_code(code: String) -> (r: FinishCode)
    ensures
        r == finish_code(code),
{
    let c = code.as_str();
    if same_text(c, "stop") || same_text(c, "end_turn") {
        FinishCode::Known(FinishReason::Stop)
    } else if same_text(c, "length") || same_text(c, "max_tokens") {
        FinishCode::Known(FinishReason::Length)
    } else if same_text(c, "stop_sequence") {
        FinishCode::Known(FinishReason::StopSequence)
    } else if same_text(c, "tool_calls") || same_text(c, "tool_use") || same_text(
        c,
        "function_call",
    ) {
        FinishCode::Known(FinishReason::ToolCalls)
    } else if same_text(c, "content_filter") {
        FinishCode::Known(FinishReason::ContentFilter)
    } else {
        FinishCode::Unrecognized(code)
    }
}

/// The text delta of a fragment: none for an absent or empty one.
pub open spec fn text_part(text: Option<String>) -> Seq<NormalizedEvent> {
    match text {
        Some(t) => if t@.len() > 0 {
            seq![NormalizedEvent::ContentDelta(t)]
        } else {
            seq![]
        },
        None => seq![],
    }
}

/// The tool-call delta of a fragment: none for an absent or empty one.
pub open spec fn tool_part(fragment: Option<String>) -> Seq<NormalizedEvent> {
    match fragment {
        Some(t) => if t@.len() > 0 {
            seq![NormalizedEvent::ToolCallDelta(t)]
        } else {
            seq![]
        },
        None => seq![],
    }
}

/// The usage event of a frame, where it carries counts.
pub open spec fn usage_part(usage: Option<Usage>) -> Seq<NormalizedEvent> {
    match usage {
        Some(u) => seq![NormalizedEvent::UsageFinal(u)],
        None => seq![],
    }
}

/// The finish-reason event of a frame, where it carries a code.
pub open spec fn finish_part(finish: Option<String>) -> Seq<NormalizedEvent> {
    match finish {
        Some(c) => seq![NormalizedEvent::FinishReason(finish_code(c))],
        None => seq![],
    }
}

/// The events a provider event maps to, and whether they end the stream.
///
/// A content frame gives its text, tool fragment, usage and finish reason in that
/// order, each where present (empty fragments are dropped), and then `StreamEnd` if it is
/// the last frame. An end marker gives `StreamEnd`, an error `StreamError`, a heartbeat
/// nothing.
pub open spec fn normalized(ev: ProviderEvent) -> (Seq<NormalizedEvent>, bool) {
    match ev {
        ProviderEvent::Data { text, tool_fragment, usage, finish, done } => (
            text_part(text) + tool_part(tool_fragment) + usage_part(usage) + finish_part(finish)
                + if done {
                seq![NormalizedEvent::StreamEnd]
            } else {
                seq![]
            },
            done,
        ),
        ProviderEvent::Stop => (seq![NormalizedEvent::StreamEnd], true),
        ProviderEvent::Error(m) => (
            seq![NormalizedEvent::StreamError(StreamErrorKind::Provider, m)],
            true,
        ),
        ProviderEvent::Heartbeat => (seq![], false),
    }
}

/// Maps a provider event onto normalized events; the flag says whether they end the
/// stream.
pub fn normalize(ev: ProviderEvent) -> (r: (Vec<NormalizedEvent>, bool))
    ensures
        r.0@ == normalized(ev).0,
        r.1 == normalized(ev).1,
{
    let mut out: Vec<NormalizedEvent> = Vec::new();
    match ev {
        ProviderEvent::Data { text, tool_fragment, usage, finish, done } => {
            if let Some(t) = text {
                if t.unicode_len() > 0 {
                    out.push(NormalizedEvent::ContentDelta(t));
                }
            }
            if let Some(t) = tool_fragment {
                if t.unicode_len() > 0 {
                    out.push(NormalizedEvent::ToolCallDelta(t));
                }
            }
            if let Some(u) = usage {
                out.push(NormalizedEvent::UsageFinal(u));
            }
            if let Some(c) = finish {
                out.push(NormalizedEvent::FinishReason(map_finish_code(c)));
            }
            if done {
                out.push(NormalizedEvent::StreamEnd);
            }
            proof {
                assert(out@ =~= normalized(ev).0);
            }
            (out, done)
        },
        ProviderEvent::Stop => {
            out.push(NormalizedEvent::StreamEnd);
            proof {
                assert(out@ =~= normalized(ev).0);
            }
            (out, true)
        },
        ProviderEvent::Error(m) => {
            out.push(NormalizedEvent::StreamError(StreamErrorKind::Provider, m));
            proof {
                assert(out@ =~= normalized(ev).0);
            }
            (out, true)
        },
        ProviderEvent::Heartbeat => {
            proof {
                assert(out@ =~= normalized(ev).0);
            }
            (out, false)
        },
    }
}

} // verus!
