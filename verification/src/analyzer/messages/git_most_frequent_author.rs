//! What is said of the author who changed a file most often.

use crate::config::GrumpinessLevel;
use vstd::prelude::*;
use vstd::string::*;

verus! {

/// The sentence that names the most frequent author.
pub open spec fn info_text(level: GrumpinessLevel, author: Seq<char>) -> Seq<char> {
    match level {
        GrumpinessLevel::Mild => "Git: file mostly edited by our star `"@ + author + "`!"@,
        GrumpinessLevel::Sarcastic => "Git: file mostly authored by `"@ + author
            + "`. Check if they're still around."@,
        GrumpinessLevel::Rude => "Git: Looks like here is "@ + author
            + "'s personal playground."@,
    }
}

/// The sentence that names the most frequent author. An empty name is
/// written as it is.
pub fn info(level: &GrumpinessLevel, author: &str) -> (message: String)
    ensures
        message@ == info_text(*level, author@),
{
    match level {
        GrumpinessLevel::Mild => {
            let mut message = String::from_str("Git: file mostly edited by our star `");
            message.append(author);
            message.append("`!");
            message
        },
        GrumpinessLevel::Sarcastic => {
            let mut message = String::from_str("Git: file mostly authored by `");
            message.append(author);
            message.append("`. Check if they're still around.");
            message
        },
        GrumpinessLevel::Rude => {
            let mut message = String::from_str("Git: Looks like here is ");
            message.append(author);
            message.append("'s personal playground.");
            message
        },
    }
}

} // verus!
