//! Encoding layer for a Crux client: transaction actions, history ranges and
//! find/where queries, each rendered to the exact text that the database reads.
//!
//! Every rendering function states the text it returns as a sequence of
//! characters, so a caller can reason about a payload before it is sent.

pub mod time;
pub mod action;
pub mod batch;
pub mod history;
pub mod query;
