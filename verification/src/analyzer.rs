//! What is found out about one changed file: structural metrics, text rules,
//! facts of the repository's history, and the report that sums them up.

pub mod complexity_inspector;
pub mod custom_rules;
pub mod messages;
pub mod git;
pub mod actions;
