//! What is said of a function that is too long.

use crate::config::GrumpinessLevel;
use crate::text::{decimal, push_decimal};
use vstd::prelude::*;
use vstd::string::*;

verus! {

/// The sentence for a function `name` whose size `size` is above `max`.
pub open spec fn warning_text(level: GrumpinessLevel, name: Seq<char>, size: nat, max: nat) -> Seq<
    char,
> {
    match level {
        GrumpinessLevel::Mild => "Function '"@ + name + "': Too many lines ("@ + decimal(size)
            + " > "@ + decimal(max) + "). Consider refactoring."@,
        GrumpinessLevel::Sarcastic => "Function '"@ + name + "': Wow, "@ + decimal(size)
            + " lines ("@ + decimal(size) + " > "@ + decimal(max)
            + ")! Are you writing a novel?"@,
        GrumpinessLevel::Rude => "Function '"@ + name + "': "@ + decimal(size) + " lines ("@
            + decimal(size) + " > "@ + decimal(max) + ")? This is absurd!"@,
    }
}

/// The sentence for a function whose size is above the limit.
pub fn warning(level: &GrumpinessLevel, name: &str, size: usize, max: u8) -> (message: String)
    ensures
        message@ == warning_text(*level, name@, size as nat, max as nat),
{
    let mut message = String::from_str("Function '");
    message.append(name);
    match level {
        GrumpinessLevel::Mild => {
            message.append("': Too many lines (");
        },
        GrumpinessLevel::Sarcastic => {
            message.append("': Wow, ");
            push_decimal(&mut message, size);
            message.append(" lines (");
        },
        GrumpinessLevel::Rude => {
            message.append("': ");
            push_decimal(&mut message, size);
            message.append(" lines (");
        },
    }
    push_decimal(&mut message, size);
    message.append(" > ");
    push_decimal(&mut message, max as usize);
    match level {
        GrumpinessLevel::Mild => {
            message.append("). Consider refactoring.");
        },
        GrumpinessLevel::Sarcastic => {
            message.append(")! Are you writing a novel?");
        },
        GrumpinessLevel::Rude => {
            message.append(")? This is absurd!");
        },
    }
    message
}

} // verus!
