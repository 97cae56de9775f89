//! The prompt screen: every message of an inbound request is assessed
//! before any backend call is made, and the first unsafe verdict
//! short-circuits the pipeline with a terminal violation response.
//!
//! The assessment call itself is outside I/O, so the screen is a state
//! machine: the driver asks it what to assess next, obtains the verdict
//! from the security service, and hands the verdict back.

use vstd::prelude::*;
use crate::types::{AssessmentRequest, ChatRequest, ChatResponse, GenerateRequest,
    GenerateResponse, Message, Verdict};
use crate::violation::{build_chat_violation, build_generate_violation, detail_view,
    violation_message_view};

verus! {

/// Where a screening run stands.
#[derive(Clone, Copy, Debug, PartialEq, Eq, Structural)]
pub enum ScreenStatus {
    /// Some message still awaits its verdict.
    Scanning,
    /// Every message was judged safe; the request may go to the backend.
    Approved,
    /// An unsafe verdict fired; the violation response was produced.
    Blocked,
}

/// The text of one message, for the screen's model.
pub open spec fn content_of(m: Message) -> Seq<char> {
    m.content@
}

/// Screens the messages of one chat request, in order, against verdicts
/// the driver obtains one by one.
pub struct ChatPromptScreen {
    model: String,
    messages: Vec<Message>,
    next_index: usize,
    status: ScreenStatus,
    assessed: Ghost<Seq<Seq<char>>>,
    verdicts_safe: Ghost<Seq<bool>>,
}

impl ChatPromptScreen {
    /// The texts submitted for assessment so far, in submission order.
    pub closed spec fn assessed(self) -> Seq<Seq<char>> {
        self.assessed@
    }

    /// The safety bit of each verdict received so far, in order.
    pub closed spec fn verdicts(self) -> Seq<bool> {
        self.verdicts_safe@
    }

    /// The messages under screening.
    pub closed spec fn messages_view(self) -> Seq<Message> {
        self.messages@
    }

    /// The model identifier of the request under screening.
    pub closed spec fn model_view(self) -> Seq<char> {
        self.model@
    }

    pub closed spec fn status_spec(self) -> ScreenStatus {
        self.status
    }

    pub open spec fn is_scanning(self) -> bool {
        self.status_spec() == ScreenStatus::Scanning
    }

    pub open spec fn is_approved(self) -> bool {
        self.status_spec() == ScreenStatus::Approved
    }

    pub open spec fn is_blocked(self) -> bool {
        self.status_spec() == ScreenStatus::Blocked
    }

    /// How many verdicts have been received.
    pub closed spec fn assessed_count(self) -> int {
        self.next_index as int
    }

    /// The screen's invariant: texts go out in message order, each exactly
    /// once; approval means every message was judged safe; a block means
    /// the last verdict was unsafe and every earlier one safe (fail-fast).
    pub closed spec fn wf(self) -> bool {
        &&& self.next_index <= self.messages@.len()
        &&& self.assessed@ =~= self.messages@.take(self.next_index as int).map_values(
            |m: Message| content_of(m),
        )
        &&& self.verdicts_safe@.len() == self.next_index as int
        &&& match self.status {
            ScreenStatus::Scanning => {
                &&& self.next_index < self.messages@.len()
                &&& forall|i: int|
                    0 <= i < self.verdicts_safe@.len() ==> self.verdicts_safe@[i]
            },
            ScreenStatus::Approved => {
                &&& self.next_index == self.messages@.len()
                &&& forall|i: int|
                    0 <= i < self.verdicts_safe@.len() ==> self.verdicts_safe@[i]
            },
            ScreenStatus::Blocked => {
                &&& self.next_index >= 1
                &&& !self.verdicts_safe@.last()
                &&& forall|i: int|
                    0 <= i < self.verdicts_safe@.len() - 1 ==> self.verdicts_safe@[i]
            },
        }
    }

    /// Starts a screening run over the request's messages.  A request
    /// without messages has nothing to assess and is approved at once.
    pub fn new(request: ChatRequest) -> (s: Self)
        ensures
            s.wf(),
            s.messages_view() == request.messages@,
            s.model_view() == request.model@,
            s.assessed() =~= Seq::<Seq<char>>::empty(),
            s.verdicts() =~= Seq::<bool>::empty(),
            s.is_approved() <==> request.messages@.len() == 0,
            s.is_scanning() <==> request.messages@.len() > 0,
            !s.is_blocked(),
    {
        let status = if request.messages.len() == 0 {
            ScreenStatus::Approved
        } else {
            ScreenStatus::Scanning
        };
        let s = ChatPromptScreen {
            model: request.model,
            messages: request.messages,
            next_index: 0,
            status,
            assessed: Ghost(Seq::empty()),
            verdicts_safe: Ghost(Seq::empty()),
        };
        proof {
            assert(s.messages@.take(0).map_values(|m: Message| content_of(m)) =~= Seq::<
                Seq<char>,
            >::empty());
        }
        s
    }

    /// Where the run stands, for the driver: scanning means `current`
    /// names the next text to assess; approved means the request may go
    /// to the backend; blocked means the violation response was produced.
    pub fn status(&self) -> (st: ScreenStatus)
        ensures
            st == self.status_spec(),
    {
        self.status
    }

    /// What the driver must submit to the security service next: the text
    /// of the next unassessed message, the request's model, and the
    /// prompt direction.
    pub fn current(&self) -> (r: AssessmentRequest)
        requires
            self.wf(),
            self.is_scanning(),
        ensures
            r.content@ == content_of(self.messages_view()[self.assessed_count()]),
            r.model@ == self.model_view(),
            r.is_prompt,
    {
        AssessmentRequest {
            content: self.messages[self.next_index].content.clone(),
            model: self.model.clone(),
            is_prompt: true,
        }
    }

    /// Consumes the verdict for the text last handed out.  An unsafe
    /// verdict blocks the run and yields the terminal violation response;
    /// a safe verdict moves to the next message, or approves the request
    /// once every message has been judged safe.
    pub fn on_verdict(&mut self, verdict: &Verdict) -> (r: Option<ChatResponse>)
        requires
            old(self).wf(),
            old(self).is_scanning(),
        ensures
            final(self).wf(),
            final(self).messages_view() == old(self).messages_view(),
            final(self).model_view() == old(self).model_view(),
            final(self).assessed() =~= old(self).assessed().push(
                content_of(old(self).messages_view()[old(self).assessed_count()]),
            ),
            final(self).verdicts() =~= old(self).verdicts().push(verdict.is_safe),
            !verdict.is_safe ==> final(self).is_blocked(),
            !verdict.is_safe ==> (r matches Some(resp)
                && resp.model@ == old(self).model_view()
                && resp.message.content@ == violation_message_view(detail_view(*verdict))
                && resp.done),
            verdict.is_safe ==> r is None && !final(self).is_blocked(),
            verdict.is_safe ==> (final(self).is_approved() <==> old(self).assessed_count() + 1
                == old(self).messages_view().len()),
    {
        let ghost idx = self.next_index as int;
        self.assessed = Ghost(self.assessed@.push(content_of(self.messages@[idx])));
        self.verdicts_safe = Ghost(self.verdicts_safe@.push(verdict.is_safe));
        let message_count = self.messages.len();
        self.next_index = self.next_index + 1;
        proof {
            assert(self.messages@.take(idx + 1).map_values(|m: Message| content_of(m)) =~= self
                .messages@.take(idx).map_values(|m: Message| content_of(m)).push(
                content_of(self.messages@[idx]),
            ));
        }
        if !verdict.is_safe {
            self.status = ScreenStatus::Blocked;
            Some(build_chat_violation(&self.model, verdict))
        } else {
            if self.next_index == message_count {
                self.status = ScreenStatus::Approved;
            } else {
                self.status = ScreenStatus::Scanning;
            }
            None
        }
    }
}

/// Law: an approved run assessed every message of the request, each
/// exactly once, in order — the submitted texts are exactly the message
/// contents in message order — and every verdict received was safe, so
/// only an all-safe history reaches the backend.
pub proof fn lemma_approved_assessed_every_message(s: ChatPromptScreen)
    requires
        s.wf(),
        s.is_approved(),
    ensures
        s.assessed() =~= s.messages_view().map_values(|m: Message| content_of(m)),
        s.verdicts().len() == s.messages_view().len(),
        forall|i: int| 0 <= i < s.verdicts().len() ==> s.verdicts()[i],
{
    assert(s.messages_view().take(s.messages_view().len() as int) =~= s.messages_view());
}

/// Law: a blocked run received exactly one unsafe verdict, its last, and
/// never reaches approval — the backend is never called for a request
/// with an unsafe message.
pub proof fn lemma_blocked_on_first_unsafe(s: ChatPromptScreen)
    requires
        s.wf(),
        s.is_blocked(),
    ensures
        !s.is_approved(),
        s.verdicts().len() >= 1,
        !s.verdicts().last(),
        forall|i: int| 0 <= i < s.verdicts().len() - 1 ==> s.verdicts()[i],
{
}

/// Screens the single prompt of a generation request against its verdict.
/// An unsafe verdict yields the terminal violation response the pipeline
/// answers with instead of calling the backend; a safe verdict lets the
/// request proceed unchanged.
pub fn screen_generate_prompt(request: &GenerateRequest, verdict: &Verdict) -> (r: Option<
    GenerateResponse,
>)
    ensures
        verdict.is_safe ==> r is None,
        !verdict.is_safe ==> (r matches Some(resp)
            && resp.model@ == request.model@
            && resp.response@ == violation_message_view(detail_view(*verdict))
            && resp.context is None
            && resp.done),
{
    if !verdict.is_safe {
        Some(build_generate_violation(&request.model, verdict))
    } else {
        None
    }
}

} // verus!
