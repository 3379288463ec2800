//! Update ingestion and resilience engine for a long-polling bot, with the
//! verified text utilities and command parsing that sit around it.
//!
//! The heart of the crate is the fetch loop: it polls an upstream source for
//! batches of ordered events, tracks the next offset to request, recovers a
//! usable offset from partially parseable responses, backs off exponentially
//! on recoverable errors up to a fixed budget, and coordinates dispatch and
//! shutdown with a task counter and a one-shot broadcaster.

pub mod backoff;
pub mod classify;
pub mod command;
pub mod crates_render;
pub mod cursor;
pub mod docsearch;
pub mod driver;
pub mod escape;
pub mod eval_code;
pub mod parse;
pub mod poll;
pub mod record;
pub mod recovery;
pub mod report;
pub mod shutdown;
pub mod task_tracker;
pub mod telegram;
pub mod text;
