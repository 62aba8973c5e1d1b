//! The wording of the findings, one table per kind of message. The tone
//! selects the sentence; it never changes what is reported.

pub mod clippy;
pub mod complexity;
pub mod function_size;
pub mod git_is_stale;
pub mod git_most_frequent_author;
