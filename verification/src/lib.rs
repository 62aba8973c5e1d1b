//! Change-triggered analysis for a watched Rust source tree.
//!
//! The crate holds the decisions of the pipeline: which file events start an
//! analysis, how a function's structural metrics are computed, which text rules
//! a source violates, how the findings are worded and ordered in the report, and
//! when buffered log records are written. Reading files, running tools and
//! waiting on channels is left to the caller, who hands in plain values.

pub mod text;
pub mod config;
pub mod cli;
pub mod analyzer;
pub mod logger;
pub mod watcher;
pub mod app_state;
