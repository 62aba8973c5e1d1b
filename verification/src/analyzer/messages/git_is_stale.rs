//! What is said of a file that nobody has touched for a while.

use crate::config::GrumpinessLevel;
use vstd::prelude::*;
use vstd::string::*;

verus! {

/// The sentence for a stale file.
pub open spec fn info_text(level: GrumpinessLevel) -> Seq<char> {
    match level {
        GrumpinessLevel::Mild =>
            "Git: Hey there! Just a heads-up: file hasn’t been updated in a while."@,
        GrumpinessLevel::Sarcastic => "Git: file looks stale. Consider revisiting it."@,
        GrumpinessLevel::Rude => "Git: file is gathering dust. Are you asleep at the keyboard?"@,
    }
}

/// The sentence for a stale file.
pub fn info(level: &GrumpinessLevel) -> (message: String)
    ensures
        message@ == info_text(*level),
{
    match level {
        GrumpinessLevel::Mild => String::from_str(
            "Git: Hey there! Just a heads-up: file hasn’t been updated in a while.",
        ),
        GrumpinessLevel::Sarcastic => String::from_str(
            "Git: file looks stale. Consider revisiting it.",
        ),
        GrumpinessLevel::Rude => String::from_str(
            "Git: file is gathering dust. Are you asleep at the keyboard?",
        ),
    }
}

} // verus!
