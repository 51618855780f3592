//! Integer codes of roles and finish reasons on the RPC transport.

use vstd::prelude::*;
use crate::types::{FinishReason, Role};

verus! {

/// The role an RPC code stands for; unknown codes count as the user.
pub open spec fn role_of_code(role: i32) -> Role {
    if role == 2 {
        Role::Assistant
    } else if role == 3 {
        Role::System
    } else if role == 4 {
        Role::Tool
    } else {
        Role::User
    }
}

/// The RPC code of a role.
pub open spec fn code_of_role(role: Role) -> i32 {
    match role {
        Role::User => 1,
        Role::Assistant => 2,
        Role::System => 3,
        Role::Tool => 4,
    }
}

/// The finish reason an RPC code stands for; unknown codes count as a natural stop.
pub open spec fn finish_reason_of_code(reason: i32) -> FinishReason {
    if reason == 2 {
        FinishReason::Length
    } else if reason == 3 {
        FinishReason::StopSequence
    } else if reason == 4 {
        FinishReason::ToolCalls
    } else if reason == 5 {
        FinishReason::ContentFilter
    } else if reason == 6 {
        FinishReason::Error
    } else {
        FinishReason::Stop
    }
}

/// The RPC code of a finish reason.
pub open spec fn code_of_finish_reason(reason: FinishReason) -> i32 {
    match reason {
        FinishReason::Stop => 1,
        FinishReason::Length => 2,
        FinishReason::StopSequence => 3,
        FinishReason::ToolCalls => 4,
        FinishReason::ContentFilter => 5,
        FinishReason::Error => 6,
    }
}

/// The role an RPC code stands for.
pub fn proto_role_to_core(role: i32) -> (r: Role)
    ensures
        r == role_of_code(role),
{
    match role {
        1 => Role::User,
        2 => Role::Assistant,
        3 => Role::System,
        4 => Role::Tool,
        _ => Role::User,
    }
}

/// The RPC code of a role.
pub fn core_role_to_proto(role: &Role) -> (r: i32)
    ensures
        r == code_of_role(*role),
{
    match role {
        Role::User => 1,
        Role::Assistant => 2,
        Role::System => 3,
        Role::Tool => 4,
    }
}

/// The finish reason an RPC code stands for.
pub fn proto_finish_reason_to_core(reason: i32) -> (r: FinishReason)
    ensures
        r == finish_reason_of_code(reason),
{
    match reason {
        1 => FinishReason::Stop,
        2 => FinishReason::Length,
        3 => FinishReason::StopSequence,
        4 => FinishReason::ToolCalls,
        5 => FinishReason::ContentFilter,
        6 => FinishReason::Error,
        _ => FinishReason::Stop,
    }
}

/// The RPC code of a finish reason.
pub fn core_finish_reason_to_proto(reason: &FinishReason) -> (r: i32)
    ensures
        r == code_of_finish_reason(*reason),
{
    match reason {
        FinishReason::Stop => 1,
        FinishReason::Length => 2,
        FinishReason::StopSequence => 3,
        FinishReason::ToolCalls => 4,
        FinishReason::ContentFilter => 5,
        FinishReason::Error => 6,
    }
}

} // verus!
