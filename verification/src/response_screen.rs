//! The non-streaming response screen: a complete backend body is assessed
//! once, and the verdict picks one of three outcomes — substitute the
//! violation notice, substitute the sanitized content the service
//! supplied, or pass the original bytes through untouched.

use vstd::prelude::*;
use crate::types::{ChatResponse, GenerateResponse, Verdict};
use crate::violation::{detail_view, format_security_violation_message, violation_message_view};

verus! {

/// A response with one replaceable primary content field.  The chat shape
/// (wrapped message) and the generation shape (flat text field) both have
/// this capability, so the screening logic is written once over it.
pub trait ContentCarrier: Sized {
    /// The primary content field, as text.
    spec fn content_view(self) -> Seq<char>;

    /// Whether everything except the primary content field is the same in
    /// both values.
    spec fn same_but_content(self, other: Self) -> bool;

    /// Replaces the primary content field, leaving every other field as
    /// it was.
    fn with_content(self, content: String) -> (r: Self)
        ensures
            r.content_view() == content@,
            r.same_but_content(self),
    ;
}

impl ContentCarrier for ChatResponse {
    open spec fn content_view(self) -> Seq<char> {
        self.message.content@
    }

    open spec fn same_but_content(self, other: Self) -> bool {
        &&& self.model == other.model
        &&& self.created_at == other.created_at
        &&& self.message.role == other.message.role
        &&& self.done == other.done
    }

    fn with_content(self, content: String) -> (r: Self) {
        let ChatResponse { model, created_at, message, done } = self;
        let mut message = message;
        message.content = content;
        ChatResponse { model, created_at, message, done }
    }
}

impl ContentCarrier for GenerateResponse {
    open spec fn content_view(self) -> Seq<char> {
        self.response@
    }

    open spec fn same_but_content(self, other: Self) -> bool {
        &&& self.model == other.model
        &&& self.created_at == other.created_at
        &&& self.context == other.context
        &&& self.done == other.done
    }

    fn with_content(self, content: String) -> (r: Self) {
        let GenerateResponse { model, created_at, response: _, context, done } = self;
        GenerateResponse { model, created_at, response: content, context, done }
    }
}

/// The outcome of screening a complete backend response.  The variant is
/// the policy classification: a violation is distinguishable from a
/// normal completion for observability, never by protocol shape.
pub enum ScreenedBody<T> {
    /// The verdict was unsafe: the rewritten response carries the
    /// violation notice in place of the backend's content.
    Violation(T),
    /// The verdict was safe but the service supplied a sanitized
    /// alternative: the rewritten response carries that alternative and
    /// must be re-serialized.
    Masked(T),
    /// The verdict was safe and unmasked: the original backend bytes,
    /// to be delivered verbatim.
    Passthrough(Vec<u8>),
}

/// Screens a complete backend response against its verdict.
///
/// `raw` is the body exactly as the backend sent it and `parsed` the
/// typed response read from it.  Unsafe content is replaced with the
/// violation notice; safe-but-masked content with the verdict's
/// `final_content`; a safe, unmasked body passes through byte-for-byte,
/// so nothing is lost to incidental re-serialization.
pub fn screen_response<T: ContentCarrier>(raw: Vec<u8>, parsed: T, verdict: &Verdict) -> (r:
    ScreenedBody<T>)
    ensures
        !verdict.is_safe ==> (r matches ScreenedBody::Violation(t)
            && t.content_view() == violation_message_view(detail_view(*verdict))
            && t.same_but_content(parsed)),
        verdict.is_safe && verdict.is_masked ==> (r matches ScreenedBody::Masked(t)
            && t.content_view() == verdict.final_content@
            && t.same_but_content(parsed)),
        verdict.is_safe && !verdict.is_masked ==> (r matches ScreenedBody::Passthrough(b)
            && b@ == raw@),
{
    if !verdict.is_safe {
        let notice = format_security_violation_message(verdict);
        ScreenedBody::Violation(parsed.with_content(notice))
    } else if verdict.is_masked {
        let masked = verdict.final_content.clone();
        ScreenedBody::Masked(parsed.with_content(masked))
    } else {
        ScreenedBody::Passthrough(raw)
    }
}

} // verus!
