//! The policy-violation notice: the message that replaces unsafe content,
//! and the terminal responses built around it.

use vstd::prelude::*;
use crate::clock::now_rfc3339;
use crate::types::{ChatResponse, GenerateResponse, Message, Role, Verdict};

verus! {

/// The exact text delivered in place of unsafe content: a fixed notice,
/// extended with the verdict's structured reason when one was supplied.
pub open spec fn violation_message_view(detail: Option<Seq<char>>) -> Seq<char> {
    match detail {
        Some(d) => "This content has been blocked by the security policy: "@ + d,
        None => "This content has been blocked by the security policy."@,
    }
}

/// The verdict's structured reason, as a character-sequence view.
pub open spec fn detail_view(v: Verdict) -> Option<Seq<char>> {
    match v.violation_detail {
        Some(d) => Some(d@),
        None => None,
    }
}

/// Formats the message that replaces content judged unsafe.
pub fn format_security_violation_message(verdict: &Verdict) -> (r: String)
    ensures
        r@ == violation_message_view(detail_view(*verdict)),
{
    match &verdict.violation_detail {
        Some(d) => {
            let s = String::from_str("This content has been blocked by the security policy: ");
            s.concat(d.as_str())
        },
        None => String::from_str("This content has been blocked by the security policy."),
    }
}

/// A terminal chat response carrying the violation notice in place of
/// model output.  Its timestamp comes from the clock and is not pinned.
pub fn build_chat_violation(model: &String, verdict: &Verdict) -> (r: ChatResponse)
    ensures
        r.model@ == model@,
        r.message.role == Role::Assistant,
        r.message.content@ == violation_message_view(detail_view(*verdict)),
        r.done,
{
    ChatResponse {
        model: model.clone(),
        created_at: now_rfc3339(),
        message: Message {
            role: Role::Assistant,
            content: format_security_violation_message(verdict),
        },
        done: true,
    }
}

/// A terminal generation response carrying the violation notice in place
/// of model output.  Its timestamp comes from the clock and is not pinned.
pub fn build_generate_violation(model: &String, verdict: &Verdict) -> (r: GenerateResponse)
    ensures
        r.model@ == model@,
        r.response@ == violation_message_view(detail_view(*verdict)),
        r.context is None,
        r.done,
{
    GenerateResponse {
        model: model.clone(),
        created_at: now_rfc3339(),
        response: format_security_violation_message(verdict),
        context: None,
        done: true,
    }
}

} // verus!
