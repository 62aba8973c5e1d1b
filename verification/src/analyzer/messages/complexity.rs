//! What is said of a function that is too complex.

use crate::config::GrumpinessLevel;
use crate::text::{decimal, push_decimal};
use vstd::prelude::*;
use vstd::string::*;

verus! {

/// The sentence for a function `name` whose cyclomatic complexity
/// `complexity` is above `max`.
pub open spec fn warning_text(level: GrumpinessLevel, name: Seq<char>, complexity: nat, max: nat)
    -> Seq<char> {
    match level {
        GrumpinessLevel::Mild => "Function '"@ + name + "': Cyclomatic complexity too high ("@
            + decimal(complexity) + " > "@ + decimal(max) + "). Consider simplifying it."@,
        GrumpinessLevel::Sarcastic => "Function '"@ + name + "': Wow, cyclomatic complexity ("@
            + decimal(complexity) + " > "@ + decimal(max)
            + ")! Are you trying to write a novel?"@,
        GrumpinessLevel::Rude => "Function '"@ + name + "': Cyclomatic complexity ("@ + decimal(
            complexity,
        ) + " > "@ + decimal(max) + ")? What is this monstrosity?"@,
    }
}

/// The sentence for a function whose cyclomatic complexity is above the
/// limit.
pub fn warning(level: &GrumpinessLevel, name: &str, complexity: usize, max: u8) -> (message:
    String)
    ensures
        message@ == warning_text(*level, name@, complexity as nat, max as nat),
{
    let mut message = String::from_str("Function '");
    message.append(name);
    match level {
        GrumpinessLevel::Mild => {
            message.append("': Cyclomatic complexity too high (");
        },
        GrumpinessLevel::Sarcastic => {
            message.append("': Wow, cyclomatic complexity (");
        },
        GrumpinessLevel::Rude => {
            message.append("': Cyclomatic complexity (");
        },
    }
    push_decimal(&mut message, complexity);
    message.append(" > ");
    push_decimal(&mut message, max as usize);
    match level {
        GrumpinessLevel::Mild => {
            message.append("). Consider simplifying it.");
        },
        GrumpinessLevel::Sarcastic => {
            message.append(")! Are you trying to write a novel?");
        },
        GrumpinessLevel::Rude => {
            message.append(")? What is this monstrosity?");
        },
    }
    message
}

} // verus!
