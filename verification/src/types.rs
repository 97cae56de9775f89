//! Data model of the screening pipeline: requests, responses, verdicts
//! and stream chunks, all as plain values.

use vstd::prelude::*;

verus! {

/// Who authored a chat message.
#[derive(Clone, Copy, Debug, PartialEq, Eq, Structural)]
pub enum Role {
    User,
    Assistant,
    System,
}

/// One chat message: an author and its text.
#[derive(Clone, Debug)]
pub struct Message {
    pub role: Role,
    pub content: String,
}

/// A chat-completion request: a model identifier, an ordered sequence of
/// messages, and an optional streaming flag.
#[derive(Clone, Debug)]
pub struct ChatRequest {
    pub model: String,
    pub messages: Vec<Message>,
    pub stream: Option<bool>,
}

/// A text-generation request: the single-message analog of `ChatRequest`.
#[derive(Clone, Debug)]
pub struct GenerateRequest {
    pub model: String,
    pub prompt: String,
    pub stream: Option<bool>,
}

/// The content-security service's judgment on one submitted text.
///
/// `is_masked` and `final_content` matter only when `is_safe` is true and
/// the service supplies a sanitized variant to deliver instead of the
/// original; an unsafe verdict always leads to the standard violation
/// message, never to `final_content`.
#[derive(Clone, Debug)]
pub struct Verdict {
    pub is_safe: bool,
    pub is_masked: bool,
    pub final_content: String,
    pub violation_detail: Option<String>,
}

/// A chat-completion response, for full bodies and for stream records alike.
#[derive(Clone, Debug)]
pub struct ChatResponse {
    pub model: String,
    pub created_at: String,
    pub message: Message,
    pub done: bool,
}

/// A text-generation response, for full bodies and for stream records alike.
#[derive(Clone, Debug)]
pub struct GenerateResponse {
    pub model: String,
    pub created_at: String,
    pub response: String,
    pub context: Option<Vec<u64>>,
    pub done: bool,
}

/// The pipeline's failure kinds.  A policy violation is never an error:
/// it is a well-formed response carrying a substituted message.
#[derive(Clone, Debug)]
pub enum ApiError {
    /// The security service was unreachable or answered with an invalid
    /// response; the pipeline fails closed and delivers nothing unassessed.
    AssessmentService,
    /// The inference backend could not be reached.
    BackendUnavailable,
    /// The backend's response could not be parsed as the expected shape.
    BackendProtocol,
    /// The backend failed in the middle of a stream.
    StreamInterrupted,
}

impl ApiError {
    /// A short description of the failure for the transport layer to
    /// deliver.  Infrastructure failures stay distinguishable from policy
    /// violations, which are never errors.
    pub fn message(&self) -> (r: String)
        ensures
            self is AssessmentService ==> r@ == "security assessment unavailable"@,
            self is BackendUnavailable ==> r@ == "backend unavailable"@,
            self is BackendProtocol ==> r@ == "invalid backend response"@,
            self is StreamInterrupted ==> r@ == "response stream interrupted"@,
    {
        match self {
            ApiError::AssessmentService => String::from_str("security assessment unavailable"),
            ApiError::BackendUnavailable => String::from_str("backend unavailable"),
            ApiError::BackendProtocol => String::from_str("invalid backend response"),
            ApiError::StreamInterrupted => String::from_str("response stream interrupted"),
        }
    }
}

/// One unit of the backend's incremental output: the original wire bytes
/// of the record, the content fragment it carries, and its terminal flag.
pub struct StreamChunk {
    pub raw: Vec<u8>,
    pub content: String,
    pub done: bool,
}

/// Mathematical model of a stream chunk.
pub struct ChunkModel {
    pub raw: Seq<u8>,
    pub content: Seq<char>,
    pub done: bool,
}

impl View for StreamChunk {
    type V = ChunkModel;

    open spec fn view(&self) -> ChunkModel {
        ChunkModel { raw: self.raw@, content: self.content@, done: self.done }
    }
}

/// One submission to the content-security service: the text to judge, the
/// model it concerns, and whether the text is a client prompt (`true`) or
/// backend output (`false`) — the service applies different thresholds
/// per direction.
pub struct AssessmentRequest {
    pub content: String,
    pub model: String,
    pub is_prompt: bool,
}

/// The streaming policy used when a request does not say whether it wants
/// a streamed response.
pub const DEFAULT_STREAM: bool = false;

impl ChatRequest {
    /// Whether the client asked for a streamed response, with the fixed
    /// policy default when the flag is absent.
    pub fn wants_stream(&self) -> (r: bool)
        ensures
            r == self.stream.unwrap_or(DEFAULT_STREAM),
    {
        self.stream.unwrap_or(DEFAULT_STREAM)
    }
}

impl GenerateRequest {
    /// Whether the client asked for a streamed response, with the fixed
    /// policy default when the flag is absent.
    pub fn wants_stream(&self) -> (r: bool)
        ensures
            r == self.stream.unwrap_or(DEFAULT_STREAM),
    {
        self.stream.unwrap_or(DEFAULT_STREAM)
    }
}

} // verus!
