//! Security-screening pipeline for a language-model inference proxy.
//!
//! Every prompt a client submits and every response the backend produces
//! is assessed by a content-security service before it is delivered;
//! unsafe content is replaced with a policy-violation notice.  This crate
//! holds the decision logic of that pipeline — the prompt screen, the
//! non-streaming response screen, and the incremental streaming screen —
//! as verified state machines over plain values.  The surrounding I/O
//! (HTTP transport, JSON framing, the calls to the backend and to the
//! security service) stays outside and drives these machines event by
//! event.

mod clock;
pub mod prompt_screen;
pub mod response_screen;
pub mod stream_screen;
pub mod types;
pub mod violation;
