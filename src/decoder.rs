//! Reads a frame's JSON payload into a provider event, by the schema of the wire format.

use vstd::prelude::*;
use crate::json::{
    Json, member, str_member, bool_member, u32_member, first_element, get, get_str, get_bool,
    get_u32, first,
};
use crate::text::same_text;
use crate::types::{Usage, usage_of};

verus! {

/// One decoded frame, before it is mapped onto the provider-independent events.
#[derive(Debug, Clone, PartialEq, Eq)]
pub enum ProviderEvent {
    /// What a content frame carries: a text fragment, a fragment of a tool call's
    /// arguments, token counts and a finish-reason code, each where present; `done`
    /// marks the frame as the last of the stream.
    Data {
        text: Option<String>,
        tool_fragment: Option<String>,
        usage: Option<Usage>,
        finish: Option<String>,
        done: bool,
    },
    /// An explicit end-of-stream marker.
    Stop,
    /// An error the service reported, with its message where it gave one.
    Error(Option<String>),
    /// A heartbeat or bookkeeping event that carries nothing to report.
    Heartbeat,
}

/// A content frame with only a text fragment.
pub open spec fn text_event(text: Option<String>) -> ProviderEvent {
    ProviderEvent::Data { text, tool_fragment: None, usage: None, finish: None, done: false }
}

/// The member `key` of the member `outer` of `j`, where it is a string.
pub open spec fn nested_str(j: Json, outer: Seq<char>, key: Seq<char>) -> Option<String> {
    match member(j, outer) {
        Some(o) => str_member(o, key),
        None => None,
    }
}

// ---------------------------------------------------------------- typed SSE schema

/// The delta of a `content_block_delta` event of the typed SSE schema.
pub open spec fn typed_block_delta(d: Json) -> Option<ProviderEvent> {
    match str_member(d, "type"@) {
        Some(kind) => if kind@ == "text_delta"@ {
            match str_member(d, "text"@) {
                Some(t) => Some(text_event(Some(t))),
                None => None,
            }
        } else if kind@ == "input_json_delta"@ {
            match str_member(d, "partial_json"@) {
                Some(p) => Some(
                    ProviderEvent::Data {
                        text: None,
                        tool_fragment: Some(p),
                        usage: None,
                        finish: None,
                        done: false,
                    },
                ),
                None => None,
            }
        } else {
            None
        },
        None => None,
    }
}

/// Token counts of the typed SSE schema: `output_tokens` is required, `input_tokens`
/// counts as zero where absent.
pub open spec fn typed_usage(j: Json) -> Option<Usage> {
    match member(j, "usage"@) {
        Some(u) => match u32_member(u, "output_tokens"@) {
            Some(out) => match u32_member(u, "input_tokens"@) {
                Some(inp) => usage_of(inp, out),
                None => usage_of(0, out),
            },
            None => None,
        },
        None => None,
    }
}

/// The event that a payload of the typed SSE schema stands for; `None` for a payload
/// whose `type` is missing or unknown, or that lacks what its type requires.
pub open spec fn typed_event(j: Json) -> Option<ProviderEvent> {
    match str_member(j, "type"@) {
        Some(kind) => if kind@ == "content_block_delta"@ {
            match member(j, "delta"@) {
                Some(d) => typed_block_delta(d),
                None => None,
            }
        } else if kind@ == "message_delta"@ {
            Some(
                ProviderEvent::Data {
                    text: None,
                    tool_fragment: None,
                    usage: typed_usage(j),
                    finish: nested_str(j, "delta"@, "stop_reason"@),
                    done: false,
                },
            )
        } else if kind@ == "message_stop"@ {
            Some(ProviderEvent::Stop)
        } else if kind@ == "error"@ {
            Some(ProviderEvent::Error(nested_str(j, "error"@, "message"@)))
        } else if kind@ == "ping"@ || kind@ == "message_start"@ || kind@ == "content_block_start"@
            || kind@ == "content_block_stop"@ {
            Some(ProviderEvent::Heartbeat)
        } else {
            None
        },
        None => None,
    }
}

fn decode_typed_block_delta(d: &Json) -> (r: Option<ProviderEvent>)
    ensures
        r == typed_block_delta(*d),
{
    match get_str(d, "type") {
        Some(kind) => {
            if same_text(kind.as_str(), "text_delta") {
                match get_str(d, "text") {
                    Some(t) => Some(
                        ProviderEvent::Data {
                            text: Some(t.clone()),
                            tool_fragment: None,
                            usage: None,
                            finish: None,
                            done: false,
                        },
                    ),
                    None => None,
                }
            } else if same_text(kind.as_str(), "input_json_delta") {
                match get_str(d, "partial_json") {
                    Some(p) => Some(
                        ProviderEvent::Data {
                            text: None,
                            tool_fragment: Some(p.clone()),
                            usage: None,
                            finish: None,
                            done: false,
                        },
                    ),
                    None => None,
                }
            } else {
                None
            }
        },
        None => None,
    }
}

fn decode_nested_str(j: &Json, outer: &str, key: &str) -> (r: Option<String>)
    ensures
        r == nested_str(*j, outer@, key@),
{
    match get(j, outer) {
        Some(o) => match get_str(o, key) {
            Some(s) => Some(s.clone()),
            None => None,
        },
        None => None,
    }
}

fn decode_typed_usage(j: &Json) -> (r: Option<Usage>)
    ensures
        r == typed_usage(*j),
{
    match get(j, "usage") {
        Some(u) => match get_u32(u, "output_tokens") {
            Some(out) => match get_u32(u, "input_tokens") {
                Some(inp) => Usage::from_counts(inp, out),
                None => Usage::from_counts(0, out),
            },
            None => None,
        },
        None => None,
    }
}

/// Decodes a payload of the typed SSE schema, where a `type` member names the event.
pub fn decode_typed(j: &Json) -> (r: Option<ProviderEvent>)
    ensures
        r == typed_event(*j),
{
    match get_str(j, "type") {
        Some(kind) => {
            let kind = kind.as_str();
            if same_text(kind, "content_block_delta") {
                match get(j, "delta") {
                    Some(d) => decode_typed_block_delta(d),
                    None => None,
                }
            } else if same_text(kind, "message_delta") {
                Some(
                    ProviderEvent::Data {
                        text: None,
                        tool_fragment: None,
                        usage: decode_typed_usage(j),
                        finish: decode_nested_str(j, "delta", "stop_reason"),
                        done: false,
                    },
                )
            } else if same_text(kind, "message_stop") {
                Some(ProviderEvent::Stop)
            } else if same_text(kind, "error") {
                Some(ProviderEvent::Error(decode_nested_str(j, "error", "message")))
            } else if same_text(kind, "ping") || same_text(kind, "message_start") || same_text(
                kind,
                "content_block_start",
            ) || same_text(kind, "content_block_stop") {
                Some(ProviderEvent::Heartbeat)
            } else {
                None
            }
        },
        None => None,
    }
}

// ---------------------------------------------------------------- plain SSE schema

/// The first choice of a payload of the plain SSE schema.
pub open spec fn plain_choice(j: Json) -> Option<Json> {
    match member(j, "choices"@) {
        Some(cs) => first_element(cs),
        None => None,
    }
}

/// The arguments fragment of the first tool call in a delta of the plain SSE schema.
pub open spec fn plain_tool_fragment(delta: Json) -> Option<String> {
    match member(delta, "tool_calls"@) {
        Some(calls) => match first_element(calls) {
            Some(call) => nested_str(call, "function"@, "arguments"@),
            None => None,
        },
        None => None,
    }
}

/// Token counts of the plain SSE schema: all three counts are required.
pub open spec fn plain_usage(j: Json) -> Option<Usage> {
    match member(j, "usage"@) {
        Some(u) => match (
            u32_member(u, "prompt_tokens"@),
            u32_member(u, "completion_tokens"@),
            u32_member(u, "total_tokens"@),
        ) {
            (Some(p), Some(c), Some(t)) => Some(
                Usage { prompt_tokens: p, completion_tokens: c, total_tokens: t },
            ),
            _ => None,
        },
        None => None,
    }
}

/// The event that a JSON payload of the plain SSE schema stands for: an `error` member
/// makes it an error; otherwise the first choice's delta content, its first tool call's
/// arguments, the choice's finish reason and the `usage` counts are read.
pub open spec fn plain_event(j: Json) -> ProviderEvent {
    match member(j, "error"@) {
        Some(e) => ProviderEvent::Error(str_member(e, "message"@)),
        None => match plain_choice(j) {
            Some(c) => ProviderEvent::Data {
                text: nested_str(c, "delta"@, "content"@),
                tool_fragment: match member(c, "delta"@) {
                    Some(d) => plain_tool_fragment(d),
                    None => None,
                },
                usage: plain_usage(j),
                finish: str_member(c, "finish_reason"@),
                done: false,
            },
            None => ProviderEvent::Data {
                text: None,
                tool_fragment: None,
                usage: plain_usage(j),
                finish: None,
                done: false,
            },
        },
    }
}

fn decode_plain_usage(j: &Json) -> (r: Option<Usage>)
    ensures
        r == plain_usage(*j),
{
    match get(j, "usage") {
        Some(u) => match (
            get_u32(u, "prompt_tokens"),
            get_u32(u, "completion_tokens"),
            get_u32(u, "total_tokens"),
        ) {
            (Some(p), Some(c), Some(t)) => Some(
                Usage { prompt_tokens: p, completion_tokens: c, total_tokens: t },
            ),
            _ => None,
        },
        None => None,
    }
}

fn decode_plain_tool_fragment(delta: &Json) -> (r: Option<String>)
    ensures
        r == plain_tool_fragment(*delta),
{
    match get(delta, "tool_calls") {
        Some(calls) => match first(calls) {
            Some(call) => decode_nested_str(call, "function", "arguments"),
            None => None,
        },
        None => None,
    }
}

/// Decodes a JSON payload of the plain SSE schema.
pub fn decode_plain(j: &Json) -> (r: ProviderEvent)
    ensures
        r == plain_event(*j),
{
    match get(j, "error") {
        Some(e) => ProviderEvent::Error(
            match get_str(e, "message") {
                Some(m) => Some(m.clone()),
                None => None,
            },
        ),
        None => {
            let choice = match get(j, "choices") {
                Some(cs) => first(cs),
                None => None,
            };
            match choice {
                Some(c) => ProviderEvent::Data {
                    text: decode_nested_str(c, "delta", "content"),
                    tool_fragment: match get(c, "delta") {
                        Some(d) => decode_plain_tool_fragment(d),
                        None => None,
                    },
                    usage: decode_plain_usage(j),
                    finish: match get_str(c, "finish_reason") {
                        Some(f) => Some(f.clone()),
                        None => None,
                    },
                    done: false,
                },
                None => ProviderEvent::Data {
                    text: None,
                    tool_fragment: None,
                    usage: decode_plain_usage(j),
                    finish: None,
                    done: false,
                },
            }
        },
    }
}

// ---------------------------------------------------------------- NDJSON schema

/// Token counts of the NDJSON schema, from `prompt_eval_count` and `eval_count`.
pub open spec fn ndjson_usage(j: Json) -> Option<Usage> {
    match (u32_member(j, "prompt_eval_count"@), u32_member(j, "eval_count"@)) {
        (Some(p), Some(c)) => usage_of(p, c),
        _ => None,
    }
}

/// The text of an NDJSON object: `message.content` where there is a `message`, else
/// `response`.
pub open spec fn ndjson_text(j: Json) -> Option<String> {
    match member(j, "message"@) {
        Some(m) => str_member(m, "content"@),
        None => str_member(j, "response"@),
    }
}

/// The event that one NDJSON object stands for: a string `error` member makes it an
/// error; otherwise it is content, and the last one where `done` is `true`.
pub open spec fn ndjson_event(j: Json) -> ProviderEvent {
    match str_member(j, "error"@) {
        Some(m) => ProviderEvent::Error(Some(m)),
        None => ProviderEvent::Data {
            text: ndjson_text(j),
            tool_fragment: None,
            usage: ndjson_usage(j),
            finish: str_member(j, "done_reason"@),
            done: bool_member(j, "done"@) == Some(true),
        },
    }
}

/// Decodes one NDJSON object.
pub fn decode_ndjson(j: &Json) -> (r: ProviderEvent)
    ensures
        r == ndjson_event(*j),
{
    match get_str(j, "error") {
        Some(m) => ProviderEvent::Error(Some(m.clone())),
        None => {
            let text = match get(j, "message") {
                Some(m) => match get_str(m, "content") {
                    Some(c) => Some(c.clone()),
                    None => None,
                },
                None => match get_str(j, "response") {
                    Some(c) => Some(c.clone()),
                    None => None,
                },
            };
            let usage = match (get_u32(j, "prompt_eval_count"), get_u32(j, "eval_count")) {
                (Some(p), Some(c)) => Usage::from_counts(p, c),
                _ => None,
            };
            ProviderEvent::Data {
                text,
                tool_fragment: None,
                usage,
                finish: match get_str(j, "done_reason") {
                    Some(f) => Some(f.clone()),
                    None => None,
                },
                done: match get_bool(j, "done") {
                    Some(b) => b,
                    None => false,
                },
            }
        },
    }
}

} // verus!
