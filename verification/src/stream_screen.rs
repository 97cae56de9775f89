//! The streaming screen, the core of the pipeline: the backend's chunk
//! sequence is consumed incrementally, the accumulating text is assessed
//! at a configurable cadence, safe chunks are relayed in order, and the
//! moment an unsafe verdict fires the rest of the stream is replaced by
//! a single terminal violation record.
//!
//! The backend read and the assessment call are outside I/O, so the
//! screen is a state machine: the driver feeds it one event at a time —
//! a chunk, a verdict, or a transport failure — and performs the action
//! it returns.  A chunk is either fully assessed-safe-and-relayed or
//! fully suppressed, never partially.
//!
//! Known limitation, inherent to incremental assessment: chunks relayed
//! before an unsafe verdict fires remain delivered and are not retracted;
//! the screen guarantees only that nothing past the verdict ever goes out.

use vstd::prelude::*;
use crate::types::{AssessmentRequest, ChunkModel, StreamChunk, Verdict};
use crate::violation::{detail_view, format_security_violation_message, violation_message_view};

verus! {

/// Where the screen stands in the life of one stream.
#[derive(Clone, Copy, Debug, PartialEq, Eq, Structural)]
pub enum StreamState {
    /// No prefix has been judged safe yet.
    Accumulating,
    /// Some non-empty prefix was judged safe and relayed.
    Relaying,
    /// Terminal: an unsafe verdict fired, or the backend failed
    /// mid-stream; nothing further is relayed.
    Blocked,
    /// Terminal: the source is exhausted and everything was relayed.
    Done,
}

/// When the accumulated text is (re-)assessed.  Whatever the cadence, the
/// final chunk always triggers one last assessment over the complete
/// text, and every assessment covers the full accumulation, not just the
/// newest fragment.
#[derive(Clone, Copy, Debug, PartialEq, Eq, Structural)]
pub enum CadencePolicy {
    /// Assess after every chunk.
    EveryChunk,
    /// Assess once the buffer holds at least `chunks` chunks or `chars`
    /// characters, whichever comes first.
    Every { chunks: usize, chars: usize },
    /// Assess only once, when the stream completes.
    AtEnd,
}

/// What the driver must do after handing the screen a chunk.
pub enum ChunkAction {
    /// Keep reading: the chunk is buffered, nothing to relay yet.
    Buffered,
    /// Submit the full accumulated text to the security service and come
    /// back with the verdict.
    Assess,
}

/// What the driver must do after handing the screen a verdict.
pub enum VerdictAction {
    /// Deliver these chunks to the client, in this order, framed exactly
    /// as the backend sent them.
    Relay(Vec<StreamChunk>),
    /// Deliver exactly one terminal violation record carrying this
    /// notice, then close the outbound stream; the rest of the backend
    /// stream is discarded.
    Block(String),
}

/// The chunk views of a chunk sequence.
pub open spec fn models_of(s: Seq<StreamChunk>) -> Seq<ChunkModel> {
    s.map_values(|c: StreamChunk| c@)
}

/// The concatenation of the content fragments of a chunk sequence.
pub open spec fn concat_contents(s: Seq<ChunkModel>) -> Seq<char>
    decreases s.len(),
{
    if s.len() == 0 {
        Seq::empty()
    } else {
        concat_contents(s.drop_last()) + s.last().content
    }
}

/// The total character count of a chunk sequence, clamped at what a
/// machine word can hold (the buffer counter saturates there).
pub open spec fn clamped_chars(s: Seq<ChunkModel>) -> int {
    if concat_contents(s).len() > usize::MAX as int {
        usize::MAX as int
    } else {
        concat_contents(s).len() as int
    }
}

/// Whether a buffer of `len` chunks and `chars` characters (clamped),
/// whose newest chunk is terminal iff `done`, is due for assessment.
pub open spec fn cadence_hit(policy: CadencePolicy, len: int, chars: int, done: bool) -> bool {
    done || match policy {
        CadencePolicy::EveryChunk => true,
        CadencePolicy::Every { chunks, chars: limit } => len >= chunks || chars >= limit,
        CadencePolicy::AtEnd => false,
    }
}

proof fn lemma_concat_push(s: Seq<ChunkModel>, c: ChunkModel)
    ensures
        concat_contents(s.push(c)) == concat_contents(s) + c.content,
{
    assert(s.push(c).drop_last() =~= s);
    assert(s.push(c).last() == c);
}

/// Screens one backend stream.  The ghost histories record every chunk
/// that arrived, every chunk relayed to the client, and every chunk
/// discarded after a block, so the relaying guarantees are stated over
/// whole runs.
pub struct StreamScreen {
    model: String,
    policy: CadencePolicy,
    state: StreamState,
    accumulated: String,
    pending: Vec<StreamChunk>,
    pending_chars: usize,
    awaiting: bool,
    saw_done: bool,
    arrived_hist: Ghost<Seq<ChunkModel>>,
    relayed_hist: Ghost<Seq<ChunkModel>>,
    discarded_hist: Ghost<Seq<ChunkModel>>,
}

impl StreamScreen {
    /// Every chunk the backend has produced, in arrival order.
    pub closed spec fn arrived(self) -> Seq<ChunkModel> {
        self.arrived_hist@
    }

    /// Every chunk relayed to the client, in relay order.
    pub closed spec fn relayed(self) -> Seq<ChunkModel> {
        self.relayed_hist@
    }

    /// Every chunk discarded after the stream was blocked.
    pub closed spec fn discarded(self) -> Seq<ChunkModel> {
        self.discarded_hist@
    }

    /// The chunks buffered since the last assessment point.
    pub closed spec fn pending_models(self) -> Seq<ChunkModel> {
        models_of(self.pending@)
    }

    pub closed spec fn model_view(self) -> Seq<char> {
        self.model@
    }

    pub closed spec fn policy_spec(self) -> CadencePolicy {
        self.policy
    }

    pub closed spec fn state_spec(self) -> StreamState {
        self.state
    }

    pub open spec fn is_blocked(self) -> bool {
        self.state_spec() == StreamState::Blocked
    }

    pub open spec fn is_done(self) -> bool {
        self.state_spec() == StreamState::Done
    }

    /// Whether an assessment has been requested and its verdict is owed.
    pub closed spec fn awaiting_verdict(self) -> bool {
        self.awaiting
    }

    /// Whether the terminal backend chunk is in the buffer, so the owed
    /// verdict is the final one.
    pub closed spec fn saw_done_spec(self) -> bool {
        self.saw_done
    }

    /// Whether the screen is ready for the next backend chunk.
    pub open spec fn accepts_chunk(self) -> bool {
        &&& (self.state_spec() == StreamState::Accumulating || self.state_spec()
            == StreamState::Relaying)
        &&& !self.awaiting_verdict()
    }

    /// The screen's invariant.  The central equation: the chunks that
    /// arrived are exactly the chunks relayed, then the chunks still
    /// buffered, then the chunks discarded on a block — in order, with
    /// nothing duplicated and nothing invented.  The accumulation buffer
    /// always holds the concatenation of every arrived fragment.
    pub closed spec fn wf(self) -> bool {
        &&& self.accumulated@ == concat_contents(self.arrived_hist@)
        &&& self.arrived_hist@ =~= self.relayed_hist@ + models_of(self.pending@)
            + self.discarded_hist@
        &&& self.pending_chars as int == clamped_chars(models_of(self.pending@))
        &&& !self.is_blocked() ==> self.discarded_hist@ =~= Seq::<ChunkModel>::empty()
        &&& self.is_blocked() ==> self.pending@.len() == 0
        &&& self.is_done() ==> self.pending@.len() == 0
        &&& self.awaiting ==> (self.state == StreamState::Accumulating || self.state
            == StreamState::Relaying)
        &&& self.state == StreamState::Accumulating ==> self.relayed_hist@.len() == 0
        &&& self.saw_done ==> self.awaiting
    }

    /// Starts screening one stream for the given model under the given
    /// assessment cadence.
    pub fn new(model: String, policy: CadencePolicy) -> (s: Self)
        ensures
            s.wf(),
            s.arrived() =~= Seq::<ChunkModel>::empty(),
            s.relayed() =~= Seq::<ChunkModel>::empty(),
            s.pending_models() =~= Seq::<ChunkModel>::empty(),
            s.accepts_chunk(),
            !s.is_blocked(),
            !s.is_done(),
            !s.awaiting_verdict(),
            s.model_view() == model@,
            s.policy_spec() == policy,
    {
        StreamScreen {
            model,
            policy,
            state: StreamState::Accumulating,
            accumulated: String::new(),
            pending: Vec::new(),
            pending_chars: 0,
            awaiting: false,
            saw_done: false,
            arrived_hist: Ghost(Seq::empty()),
            relayed_hist: Ghost(Seq::empty()),
            discarded_hist: Ghost(Seq::empty()),
        }
    }

    /// Takes the next backend chunk.  The fragment joins the accumulated
    /// text and the chunk joins the buffer; the chunk is relayed only
    /// after a covering assessment returns safe.  The action says whether
    /// the buffer is now due for assessment — always, on the terminal
    /// chunk, so no tail ever goes out unassessed.
    pub fn on_chunk(&mut self, chunk: StreamChunk) -> (a: ChunkAction)
        requires
            old(self).wf(),
            old(self).accepts_chunk(),
        ensures
            final(self).wf(),
            final(self).arrived() =~= old(self).arrived().push(chunk@),
            final(self).relayed() == old(self).relayed(),
            final(self).pending_models() =~= old(self).pending_models().push(chunk@),
            final(self).model_view() == old(self).model_view(),
            final(self).policy_spec() == old(self).policy_spec(),
            !final(self).is_blocked(),
            !final(self).is_done(),
            (a is Assess) <==> cadence_hit(
                old(self).policy_spec(),
                old(self).pending_models().len() as int + 1,
                clamped_chars(old(self).pending_models().push(chunk@)),
                chunk.done,
            ),
            (a is Assess) <==> final(self).awaiting_verdict(),
            (a is Buffered) ==> final(self).accepts_chunk(),
            final(self).saw_done_spec() == chunk.done,
    {
        let fragment_chars = chunk.content.as_str().unicode_len();
        let is_last = chunk.done;
        self.accumulated.append(chunk.content.as_str());
        proof {
            lemma_concat_push(self.arrived_hist@, chunk@);
            lemma_concat_push(models_of(self.pending@), chunk@);
            assert(models_of(self.pending@.push(chunk)) =~= models_of(self.pending@).push(
                chunk@,
            ));
        }
        self.arrived_hist = Ghost(self.arrived_hist@.push(chunk@));
        self.pending.push(chunk);
        self.pending_chars = self.pending_chars.saturating_add(fragment_chars);
        self.saw_done = is_last;
        let due = is_last || match self.policy {
            CadencePolicy::EveryChunk => true,
            CadencePolicy::Every { chunks, chars } => self.pending.len() >= chunks
                || self.pending_chars >= chars,
            CadencePolicy::AtEnd => false,
        };
        if due {
            self.awaiting = true;
            ChunkAction::Assess
        } else {
            self.awaiting = false;
            self.saw_done = false;
            ChunkAction::Buffered
        }
    }

    /// What the driver must submit to the security service: the full
    /// accumulated text — the classifier needs the whole context, not the
    /// newest fragment — for this model, in the response direction.
    pub fn assessment_request(&self) -> (r: AssessmentRequest)
        requires
            self.wf(),
            self.awaiting_verdict(),
        ensures
            r.content@ == concat_contents(self.arrived()),
            r.model@ == self.model_view(),
            !r.is_prompt,
    {
        AssessmentRequest {
            content: self.accumulated.clone(),
            model: self.model.clone(),
            is_prompt: false,
        }
    }

    /// Consumes the verdict owed for the accumulated text.
    ///
    /// Safe: every buffered chunk is handed back for relay, in arrival
    /// order and framed as the backend sent it; the screen finishes if
    /// the terminal chunk was among them.  Unsafe: the screen blocks,
    /// nothing buffered is ever relayed, what was already relayed stays
    /// delivered, and the driver is handed the violation notice to send
    /// as one terminal record.
    pub fn on_verdict(&mut self, verdict: &Verdict) -> (a: VerdictAction)
        requires
            old(self).wf(),
            old(self).awaiting_verdict(),
        ensures
            final(self).wf(),
            final(self).arrived() == old(self).arrived(),
            final(self).model_view() == old(self).model_view(),
            final(self).policy_spec() == old(self).policy_spec(),
            !final(self).awaiting_verdict(),
            !verdict.is_safe ==> (a matches VerdictAction::Block(notice)
                && notice@ == violation_message_view(detail_view(*verdict))),
            !verdict.is_safe ==> final(self).is_blocked(),
            !verdict.is_safe ==> final(self).relayed() == old(self).relayed(),
            !verdict.is_safe ==> final(self).discarded() =~= old(self).pending_models(),
            verdict.is_safe ==> (a matches VerdictAction::Relay(out)
                && models_of(out@) =~= old(self).pending_models()),
            verdict.is_safe ==> final(self).relayed() =~= old(self).relayed() + old(
                self,
            ).pending_models(),
            verdict.is_safe ==> final(self).pending_models() =~= Seq::<ChunkModel>::empty(),
            verdict.is_safe ==> (final(self).is_done() <==> old(self).saw_done_spec()),
            verdict.is_safe && !old(self).saw_done_spec() ==> final(self).accepts_chunk(),
    {
        self.awaiting = false;
        if !verdict.is_safe {
            self.state = StreamState::Blocked;
            self.saw_done = false;
            proof {
                assert(self.discarded_hist@ =~= Seq::<ChunkModel>::empty());
            }
            self.discarded_hist = Ghost(models_of(self.pending@));
            self.pending = Vec::new();
            self.pending_chars = 0;
            let ghost d = self.discarded_hist@;
            proof {
                assert(self.arrived_hist@ =~= self.relayed_hist@ + models_of(self.pending@)
                    + d);
            }
            VerdictAction::Block(format_security_violation_message(verdict))
        } else {
            let mut out: Vec<StreamChunk> = Vec::new();
            core::mem::swap(&mut out, &mut self.pending);
            self.relayed_hist = Ghost(self.relayed_hist@ + models_of(out@));
            self.pending_chars = 0;
            if self.saw_done {
                self.state = StreamState::Done;
                self.saw_done = false;
            } else {
                self.state = StreamState::Relaying;
            }
            proof {
                assert(models_of(self.pending@) =~= Seq::<ChunkModel>::empty());
                assert(self.arrived_hist@ =~= self.relayed_hist@ + models_of(self.pending@)
                    + self.discarded_hist@);
            }
            VerdictAction::Relay(out)
        }
    }

    /// Takes a backend transport failure mid-stream.  The screen moves to
    /// its terminal blocked state — nothing buffered is ever relayed —
    /// and hands back the interruption notice the driver sends as one
    /// best-effort terminal record instead of leaving the connection
    /// half-open.
    pub fn on_interrupt(&mut self) -> (notice: String)
        requires
            old(self).wf(),
            !old(self).is_blocked(),
            !old(self).is_done(),
        ensures
            final(self).wf(),
            final(self).is_blocked(),
            final(self).arrived() == old(self).arrived(),
            final(self).relayed() == old(self).relayed(),
            final(self).discarded() =~= old(self).pending_models(),
            notice@ == interrupted_message_view(),
    {
        self.state = StreamState::Blocked;
        self.awaiting = false;
        self.saw_done = false;
        proof {
            assert(self.discarded_hist@ =~= Seq::<ChunkModel>::empty());
        }
        self.discarded_hist = Ghost(models_of(self.pending@));
        self.pending = Vec::new();
        self.pending_chars = 0;
        let ghost d = self.discarded_hist@;
        proof {
            assert(self.arrived_hist@ =~= self.relayed_hist@ + models_of(self.pending@) + d);
        }
        String::from_str("The response stream was interrupted before completion.")
    }

    /// Whether the screen owes the security service a verdict.
    pub fn needs_verdict(&self) -> (b: bool)
        ensures
            b == self.awaiting_verdict(),
    {
        self.awaiting
    }

    /// Whether the screen is ready for the next backend chunk.
    pub fn can_accept(&self) -> (b: bool)
        ensures
            b == self.accepts_chunk(),
    {
        (matches!(self.state, StreamState::Accumulating) || matches!(
            self.state,
            StreamState::Relaying,
        )) && !self.awaiting
    }

    /// Whether the stream has ended, by completion or by a block.
    pub fn finished(&self) -> (b: bool)
        ensures
            b == (self.is_done() || self.is_blocked()),
    {
        matches!(self.state, StreamState::Done) || matches!(self.state, StreamState::Blocked)
    }
}

/// The text of the terminal record sent when the backend fails mid-stream.
pub open spec fn interrupted_message_view() -> Seq<char> {
    "The response stream was interrupted before completion."@
}

/// Law: a stream that completes — every covering assessment returned
/// safe, through the final one — relays exactly the chunks that arrived:
/// the same records, in the same order, so the concatenation of relayed
/// fragments equals the concatenation of backend fragments, with no
/// truncation, reordering or duplication.
pub proof fn lemma_done_relays_everything(s: StreamScreen)
    requires
        s.wf(),
        s.is_done(),
    ensures
        s.relayed() =~= s.arrived(),
        concat_contents(s.relayed()) == concat_contents(s.arrived()),
{
    assert(s.relayed() =~= s.relayed() + s.pending_models() + s.discarded());
    assert(concat_contents(s.relayed()) == concat_contents(s.arrived()));
}

/// Law: at every point in a stream's life, the chunks relayed to the
/// client are exactly a prefix of the chunks that arrived from the
/// backend — strictly in emission order, none duplicated, none invented.
pub proof fn lemma_relayed_is_prefix(s: StreamScreen)
    requires
        s.wf(),
    ensures
        s.relayed() =~= s.arrived().take(s.relayed().len() as int),
{
    assert(s.arrived() =~= s.relayed() + s.pending_models() + s.discarded());
}

/// Law: a blocked stream relayed exactly some prefix of what arrived —
/// what went out before the verdict stays delivered, and nothing that
/// arrived after the covering assessment point ever goes out.
pub proof fn lemma_blocked_relays_prefix(s: StreamScreen)
    requires
        s.wf(),
        s.is_blocked(),
    ensures
        s.arrived() =~= s.relayed() + s.discarded(),
        s.relayed() =~= s.arrived().take(s.relayed().len() as int),
{
    assert(s.arrived() =~= s.relayed() + s.discarded());
}

} // verus!
