//! Provider-independent data: roles, token counts, finish reasons, tool calls.

use vstd::prelude::*;

verus! {

/// The role of a message sender.
#[derive(Debug, Clone, Copy, PartialEq, Eq, Structural)]
pub enum Role {
    User,
    Assistant,
    System,
    Tool,
}

/// The lower-case name of a role.
pub open spec fn role_name(role: Role) -> Seq<char> {
    match role {
        Role::User => "user"@,
        Role::Assistant => "assistant"@,
        Role::System => "system"@,
        Role::Tool => "tool"@,
    }
}

impl Role {
    /// The lower-case name of the role, as the wire formats spell it.
    pub fn as_str(&self) -> (r: &'static str)
        ensures
            r@ == role_name(*self),
    {
        match self {
            Role::User => "user",
            Role::Assistant => "assistant",
            Role::System => "system",
            Role::Tool => "tool",
        }
    }

    /// The role named `name`; an error message naming it where no role has that name.
    pub fn try_from(name: &str) -> (r: Result<Role, String>)
        ensures
            match r {
                Ok(role) => role_name(role) == name@,
                Err(m) => m@ == "Invalid role: "@ + name@ && forall|role: Role| role_name(role) != name@,
            },
    {
        if crate::text::same_text(name, "user") {
            Ok(Role::User)
        } else if crate::text::same_text(name, "assistant") {
            Ok(Role::Assistant)
        } else if crate::text::same_text(name, "system") {
            Ok(Role::System)
        } else if crate::text::same_text(name, "tool") {
            Ok(Role::Tool)
        } else {
            assert forall|role: Role| role_name(role) != name@ by {
                match role {
                    Role::User => {},
                    Role::Assistant => {},
                    Role::System => {},
                    Role::Tool => {},
                }
            }
            let mut msg = String::from_str("Invalid role: ");
            msg.append(name);
            Err(msg)
        }
    }
}

/// Token counts of one request.
#[derive(Debug, Clone, Copy, PartialEq, Eq, Structural)]
pub struct Usage {
    pub prompt_tokens: u32,
    pub completion_tokens: u32,
    pub total_tokens: u32,
}

/// The usage record of `prompt` and `completion` tokens, where their sum fits in a `u32`.
pub open spec fn usage_of(prompt: u32, completion: u32) -> Option<Usage> {
    if prompt + completion <= u32::MAX {
        Some(Usage {
            prompt_tokens: prompt,
            completion_tokens: completion,
            total_tokens: (prompt + completion) as u32,
        })
    } else {
        None
    }
}

impl Usage {
    /// The usage record of `prompt` and `completion` tokens, with their sum as the
    /// total; `None` where the sum does not fit in a `u32`.
    pub fn from_counts(prompt: u32, completion: u32) -> (r: Option<Usage>)
        ensures
            r == usage_of(prompt, completion),
    {
        match prompt.checked_add(completion) {
            Some(total) => Some(Usage {
                prompt_tokens: prompt,
                completion_tokens: completion,
                total_tokens: total,
            }),
            None => None,
        }
    }
}

/// A span of time: whole seconds and the nanoseconds beyond them.
#[derive(Debug, Clone, Copy, PartialEq, Eq, Structural)]
pub struct Duration {
    pub secs: u64,
    pub nanos: u32,
}

impl Duration {
    /// Whether the parts are in range: fewer than a second's worth of nanoseconds.
    pub open spec fn wf(self) -> bool {
        self.nanos < 1_000_000_000
    }

    /// `secs` whole seconds.
    pub fn from_secs(secs: u64) -> (r: Duration)
        ensures
            r == (Duration { secs, nanos: 0 }),
    {
        Duration { secs, nanos: 0 }
    }

    /// `millis` milliseconds.
    pub fn from_millis(millis: u64) -> (r: Duration)
        ensures
            r.wf(),
            r.secs == millis / 1000,
            r.nanos == (millis % 1000) * 1_000_000,
    {
        Duration { secs: millis / 1000, nanos: ((millis % 1000) as u32) * 1_000_000 }
    }

    /// Whether the span is empty.
    pub fn is_zero(&self) -> (r: bool)
        ensures
            r == (self.secs == 0 && self.nanos == 0),
    {
        self.secs == 0 && self.nanos == 0
    }
}

/// Why the model stopped generating.
#[derive(Debug, Clone, Copy, PartialEq, Eq, Structural)]
pub enum FinishReason {
    Stop,
    Length,
    StopSequence,
    ToolCalls,
    ContentFilter,
    Error,
}

/// A function call within a tool call.
#[derive(Debug, Clone, PartialEq, Eq)]
pub struct FunctionCall {
    /// Name of the function to call.
    pub name: String,
    /// Arguments to pass to the function, as JSON text.
    pub arguments: String,
}

/// A tool call made by the model.
#[derive(Debug, Clone, PartialEq, Eq)]
pub struct ToolCall {
    /// Unique identifier of the call.
    pub id: String,
    /// The kind of tool call, usually `function`.
    pub call_type: String,
    /// The function being called.
    pub function: FunctionCall,
}

/// Tool-related content of a message.
#[derive(Debug, Clone, PartialEq, Eq)]
pub struct ToolContent {
    /// Tool calls made by the assistant.
    pub tool_calls: Option<Vec<ToolCall>>,
    /// The id of the call this message answers.
    pub tool_call_id: Option<String>,
    /// Text alongside the tool data.
    pub text: Option<String>,
}

/// An image given by URL.
#[derive(Debug, Clone, PartialEq, Eq)]
pub struct ImageUrl {
    pub url: String,
    pub detail: Option<String>,
}

/// A generated image.
#[derive(Debug, Clone, PartialEq, Eq)]
pub struct GeneratedImage {
    /// URL of the image.
    pub url: Option<String>,
    /// The image as base64 text.
    pub b64_json: Option<String>,
    /// The prompt the service actually used.
    pub revised_prompt: Option<String>,
}

} // verus!
