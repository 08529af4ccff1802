//! Core logic of a link-enrichment pipeline: exhaustive cursor-driven
//! retrieval of bookmarked links from a paginated store, followed by
//! bounded-concurrency two-stage enrichment (summarize, then tag) of each
//! link through a chat-completion backend.
//!
//! This crate holds the verified decision logic: the pagination state
//! machine, the per-link enrichment state machine, the concurrency
//! governor's permit accounting, result aggregation, request construction,
//! and the strict parser for the backend's tag replies. The network calls
//! themselves are issued by an unverified driver that feeds plain values
//! into these state machines.

pub mod governor;
pub mod models;
pub mod orchestrator;
pub mod paginator;
pub mod pipeline;
pub mod prompts;
pub mod store;
pub mod tags;
