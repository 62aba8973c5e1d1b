//! The report that is currently shown.

use std::sync::Arc;
use std::sync::RwLock;
use vstd::prelude::*;
use vstd::string::*;

verus! {

/// The latest report. A new report replaces the old one; no history is
/// kept.
#[derive(Debug)]
pub struct AppState {
    pub message: String,
}

/// `std::sync::RwLock`: what it holds is out of the verifier's sight.
#[verifier::external_type_specification]
#[verifier::external_body]
#[verifier::reject_recursive_types(T)]
pub struct ExRwLock<T: ?Sized>(RwLock<T>);

/// The state as the watch loop and the presentation layer share it: the
/// loop writes, the presentation layer reads.
pub type SharedAppState = Arc<RwLock<AppState>>;

impl Default for AppState {
    fn default() -> (state: AppState)
        ensures
            state.message@ == Seq::<char>::empty(),
    {
        AppState { message: String::new() }
    }
}

impl AppState {
    /// Replaces the report.
    pub fn set_message(&mut self, message: String)
        ensures
            final(self).message == message,
    {
        self.message = message;
    }
}

/// The report that a lock held when it was made.
pub uninterp spec fn first_message(lock: RwLock<AppState>) -> Seq<char>;

/// Calls `RwLock::new`, which makes an unlocked lock around the state that
/// it is given. The report of that state is named `first_message`. Nothing
/// is claimed of what the lock holds after a write.
#[verifier::external_body]
fn lock_around(state: AppState) -> (lock: RwLock<AppState>)
    ensures
        first_message(lock) == state.message@,
{
    RwLock::new(state)
}

/// A shared state that holds no report yet: the lock is made around the
/// empty report.
pub fn new_shared_state() -> (shared: SharedAppState)
    ensures
        first_message(*shared) == Seq::<char>::empty(),
{
    Arc::new(lock_around(AppState::default()))
}

/// `input` cut into pieces of at most `width` characters, a line feed
/// between each two.
pub open spec fn wrapped(input: Seq<char>, width: int) -> Seq<char>
    decreases input.len(),
{
    if width <= 0 || input.len() <= width {
        input
    } else {
        input.subrange(0, width) + seq!['\n'] + wrapped(
            input.subrange(width, input.len() as int),
            width,
        )
    }
}

/// Breaks a message into lines of 40 characters; the last line holds what
/// is left.
pub fn split_message(input: &str) -> (lines: String)
    ensures
        lines@ == wrapped(input@, 40),
{
    let total: usize = input.unicode_len();
    let mut lines = String::new();
    let mut from: usize = 0;
    proof {
        assert(input@.subrange(0, total as int) =~= input@);
    }
    while total - from > 40
        invariant
            from <= total,
            total == input@.len(),
            lines@ + wrapped(input@.subrange(from as int, total as int), 40) == wrapped(
                input@,
                40,
            ),
        decreases total - from,
    {
        let piece = input.substring_char(from, from + 40);
        proof {
            reveal_strlit("\n");
            let rest = input@.subrange(from as int, total as int);
            assert(rest.subrange(0, 40) =~= piece@);
            assert(rest.subrange(40, rest.len() as int) =~= input@.subrange(
                from + 40,
                total as int,
            ));
            assert("\n"@ =~= seq!['\n']);
            assert((lines@ + piece@ + "\n"@) + wrapped(
                input@.subrange(from + 40, total as int),
                40,
            ) =~= lines@ + wrapped(rest, 40));
        }
        lines.append(piece);
        lines.append("\n");
        from = from + 40;
    }
    lines.append(input.substring_char(from, total));
    lines
}

} // verus!
