//! Streaming generation orchestrator for a long-form writing assistant.
//!
//! The crate turns user prompts into chat-completion requests, decodes the
//! server-sent-event byte stream of the reply into text deltas, enforces that
//! only one generation runs at a time with cooperative cancellation, and, for
//! outline generation, drives bounded continuation rounds until the requested
//! chapter count is reached or the retry budget is exhausted.

pub mod chapters;
pub mod chat;
pub mod fonts;
pub mod guard;
pub mod images;
pub mod models;
pub mod outline;
pub mod prompts;
pub mod relay;
pub mod sse;
pub mod text;

pub use guard::Coordinator;
