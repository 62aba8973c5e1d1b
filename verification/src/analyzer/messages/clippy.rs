//! What is said of the linter's verdict.

use crate::config::GrumpinessLevel;
use vstd::prelude::*;

verus! {

/// The sentence for a linter run without findings.
pub open spec fn success_text(level: GrumpinessLevel) -> Seq<char> {
    match level {
        GrumpinessLevel::Mild => "✅ cargo clippy successful"@,
        GrumpinessLevel::Sarcastic => "✅🙈 Oh, you did not break anything. Strange!"@,
        GrumpinessLevel::Rude =>
            "✅🙄 Oh, you managed not to break anything? Well, there is a first time for everything."@,
    }
}

/// The sentence for a linter run that found fault with the changed file.
pub open spec fn failure_text(level: GrumpinessLevel) -> Seq<char> {
    match level {
        GrumpinessLevel::Mild => "❌ Clippy failed (see terminal for details)"@,
        GrumpinessLevel::Sarcastic => "❌🙄 Oh, you did break something (as usual):"@,
        GrumpinessLevel::Rude => "❌💣 Of course you broke something—how utterly predictable."@,
    }
}

/// The sentence for a linter run without findings.
pub fn success(level: &GrumpinessLevel) -> (message: &'static str)
    ensures
        message@ == success_text(*level),
{
    match level {
        GrumpinessLevel::Mild => "✅ cargo clippy successful",
        GrumpinessLevel::Sarcastic => "✅🙈 Oh, you did not break anything. Strange!",
        GrumpinessLevel::Rude => {
            "✅🙄 Oh, you managed not to break anything? Well, there is a first time for everything."
        },
    }
}

/// The sentence for a linter run that found fault with the changed file.
pub fn failure(level: &GrumpinessLevel) -> (message: &'static str)
    ensures
        message@ == failure_text(*level),
{
    match level {
        GrumpinessLevel::Mild => "❌ Clippy failed (see terminal for details)",
        GrumpinessLevel::Sarcastic => "❌🙄 Oh, you did break something (as usual):",
        GrumpinessLevel::Rude => "❌💣 Of course you broke something—how utterly predictable.",
    }
}

} // verus!
