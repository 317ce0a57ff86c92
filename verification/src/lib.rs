//! Bounded-output execution and delivery pipeline for a chat-command bot.
//!
//! The crate covers the decision logic of the pipeline: per-actor rate
//! limiting, classification of response bytes under size and content-type
//! gates, preparation of requests for a remote polyglot execution service,
//! staging plans for a local single-language build sandbox, and the small
//! string transformations the command surface needs.  All I/O (HTTP calls,
//! the chat transport, filesystem and subprocess work) stays outside; the
//! functions here take plain values and return plain values, with contracts
//! that pin their results down.

pub mod bubble;
pub mod classify;
pub mod fetch;
pub mod limiter;
pub mod outside;
pub mod remote;
pub mod repl;
pub mod sandbox;
pub mod strutil;
