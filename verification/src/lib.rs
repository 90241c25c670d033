//! Conversation turn engine for an interactive coding assistant.
//!
//! The crate models the data and decision logic of the engine: the typed
//! conversation history and its rollout log, the parser that turns
//! server-sent events into normalized response events, the retry policy,
//! the tool registry and router, and the per-turn streaming event loop.
//! Network and process I/O live outside the crate; every function here is
//! a total function from plain values to plain values, with its contract
//! checked by Verus.

pub mod aggregate;
pub mod client;
pub mod engine;
pub mod errors;
pub mod fmt_text;
pub mod history;
pub mod items;
pub mod jsonio;
pub mod notify;
pub mod rate_limits;
pub mod retry;
pub mod retry_after;
pub mod sse;
pub mod sse_frames;
pub mod state;
pub mod task;
pub mod text;
pub mod tools;
