//! The watch loop's decisions: which file events start an analysis.
//!
//! The caller subscribes to the file system, waits for events and runs the
//! analysis. For each event the watcher says whether to analyse the file:
//! the path must match no ignore pattern, its extension must be watched, and
//! the last analysis must have started at least the debounce interval ago.

use crate::text::{matches_at, to_chars};
use vstd::prelude::*;
use vstd::slice::*;
use vstd::string::*;

verus! {

/// The least time between the starts of two analyses, in milliseconds.
pub const DEBOUNCE_INTERVAL_MS: u64 = 10000;

/// The caller waits at most this many milliseconds for an event before it
/// looks whether it is to go on.
pub const POLL_INTERVAL_MS: u64 = 1000;

/// `regex::Error`: it is handed on and never looked into.
#[verifier::external_type_specification]
#[verifier::external_body]
pub struct ExRegexError(regex::Error);

/// Whether `regex::Regex::new` accepts `pattern`: it is a regular
/// expression, and what it compiles to is within the size limit that the
/// crate sets by default.
pub uninterp spec fn regex_compiles(pattern: Seq<char>) -> bool;

/// Whether the regular expression `pattern`, once `regex::Regex::new` has
/// compiled it, finds a match somewhere in `text`.
pub uninterp spec fn regex_finds(pattern: Seq<char>, text: Seq<char>) -> bool;

/// Compiles `pattern` with `regex::Regex::new` and searches `text` with
/// `Regex::is_match`. Whether the pattern compiles is a function of the
/// pattern alone and is named `regex_compiles`; the error comes back exactly
/// where it does not. Where the pattern compiles, the answer is a function
/// of pattern and text alone and is named `regex_finds`.
#[verifier::external_body]
fn search(pattern: &str, text: &str) -> (found: Result<bool, regex::Error>)
    ensures
        found is Ok <==> regex_compiles(pattern@),
        found matches Ok(hit) ==> hit == regex_finds(pattern@, text@),
{
    match regex::Regex::new(pattern) {
        Ok(compiled) => Ok(compiled.is_match(text)),
        Err(error) => Err(error),
    }
}

/// Why an event could not be judged.
#[derive(Debug)]
pub enum WatchError {
    /// This ignore pattern does not compile as a regular expression.
    InvalidPattern(String),
}

/// The index of the last `wanted` in `text`.
pub open spec fn last_index_of(text: Seq<char>, wanted: char) -> Option<int>
    decreases text.len(),
{
    if text.len() == 0 {
        None
    } else if text.last() == wanted {
        Some(text.len() - 1)
    } else {
        last_index_of(text.drop_last(), wanted)
    }
}

/// The file name of a path: what follows its last `/`, or all of it where it
/// holds none. A path that ends in `/` has the empty file name: a trailing
/// `/` is not passed over, unlike in `std::path::Path::file_name`.
pub open spec fn file_name(path: Seq<char>) -> Seq<char> {
    match last_index_of(path, '/') {
        Some(slash) => path.subrange(slash + 1, path.len() as int),
        None => path,
    }
}

/// The extension of a path: what follows the last dot of its file name. A
/// file name without a dot has none, nor has one whose only dot is its first
/// character, nor has `..`. On the path of a file this is the extension that
/// `std::path::Path::extension` gives. On a path that ends in `/` or in
/// `/.` it is not: such a path has no extension here, where the standard
/// library looks at the component before the trailing part.
pub open spec fn extension(path: Seq<char>) -> Option<Seq<char>> {
    let name = file_name(path);
    match last_index_of(name, '.') {
        Some(dot) => if dot == 0 || name == seq!['.', '.'] {
            None
        } else {
            Some(name.subrange(dot + 1, name.len() as int))
        },
        None => None,
    }
}

/// `text` without its leading dots.
pub open spec fn without_leading_dots(text: Seq<char>) -> Seq<char>
    decreases text.len(),
{
    if text.len() > 0 && text[0] == '.' {
        without_leading_dots(text.drop_first())
    } else {
        text
    }
}

/// Whether the extension of `path` is among `allowed`. The watched
/// extensions may be written with or without leading dots.
pub open spec fn relevant(path: Seq<char>, allowed: Seq<Seq<char>>) -> bool {
    match extension(path) {
        Some(found) => exists|i: int|
            0 <= i < allowed.len() && without_leading_dots(#[trigger] allowed[i]) == found,
        None => false,
    }
}

fn last_position(text: &[char], wanted: char) -> (found: Option<usize>)
    ensures
        found matches Some(at) ==> at < text@.len() && last_index_of(text@, wanted) == Some(
            at as int,
        ),
        found is None ==> last_index_of(text@, wanted) is None,
{
    let mut end: usize = text.len();
    assert(text@.take(end as int) =~= text@);
    while end > 0
        invariant
            end <= text.len(),
            last_index_of(text@, wanted) == last_index_of(text@.take(end as int), wanted),
            text@.take(end as int).len() == end,
        decreases end,
    {
        proof {
            assert(text@.take(end as int).drop_last() =~= text@.take(end - 1));
        }
        if text[end - 1] == wanted {
            return Some(end - 1);
        }
        end -= 1;
    }
    None
}

fn same_chars(a: &[char], b: &[char]) -> (same: bool)
    ensures
        same == (a@ == b@),
{
    if a.len() != b.len() {
        return false;
    }
    let same = matches_at(a, b, 0);
    proof {
        assert(a@.subrange(0, a@.len() as int) =~= a@);
    }
    same
}

fn extension_of(path: &[char]) -> (found: Option<&[char]>)
    ensures
        match extension(path@) {
            Some(expected) => found matches Some(part) && part@ == expected,
            None => found is None,
        },
{
    let length: usize = path.len();
    let name: &[char] = match last_position(path, '/') {
        Some(slash) => slice_subrange(path, slash + 1, length),
        None => path,
    };
    match last_position(name, '.') {
        Some(dot) => {
            if dot == 0 || (name.len() == 2 && name[0] == '.' && name[1] == '.') {
                proof {
                    if dot != 0 {
                        assert(name@ =~= seq!['.', '.']);
                    }
                }
                None
            } else {
                Some(slice_subrange(name, dot + 1, name.len()))
            }
        },
        None => None,
    }
}

/// Whether a changed file is of a watched kind: its extension is among
/// `allowed_extensions`, which may be written with or without leading dots.
pub fn is_relevant(path: &str, allowed_extensions: &Vec<String>) -> (found: bool)
    ensures
        found == relevant(path@, allowed_extensions.deep_view()),
{
    let chars = to_chars(path);
    let ghost allowed = allowed_extensions.deep_view();
    match extension_of(chars.as_slice()) {
        None => false,
        Some(found) => {
            let mut i: usize = 0;
            while i < allowed_extensions.len()
                invariant
                    i <= allowed_extensions.len(),
                    allowed == allowed_extensions.deep_view(),
                    extension(path@) == Some(found@),
                    forall|k: int|
                        0 <= k < i ==> without_leading_dots(#[trigger] allowed[k]) != found@,
                decreases allowed_extensions.len() - i,
            {
                let candidate = to_chars(allowed_extensions[i].as_str());
                assert(candidate@ == allowed[i as int]);
                let mut start: usize = 0;
                assert(candidate@.subrange(0, candidate@.len() as int) =~= candidate@);
                while start < candidate.len() && candidate[start] == '.'
                    invariant
                        start <= candidate.len(),
                        without_leading_dots(candidate@) == without_leading_dots(
                            candidate@.subrange(start as int, candidate@.len() as int),
                        ),
                    decreases candidate.len() - start,
                {
                    proof {
                        let rest = candidate@.subrange(start as int, candidate@.len() as int);
                        assert(rest.drop_first() =~= candidate@.subrange(
                            start + 1,
                            candidate@.len() as int,
                        ));
                    }
                    start += 1;
                }
                let bare = slice_subrange(candidate.as_slice(), start, candidate.len());
                assert(without_leading_dots(bare@) == bare@);
                if same_chars(bare, found) {
                    assert(without_leading_dots(allowed[i as int]) == found@);
                    return true;
                }
                i += 1;
            }
            false
        },
    }
}

/// What the search of one ignore pattern gave: whether it matched, or
/// nothing where the pattern does not compile.
pub open spec fn ignore_verdict(outcomes: Seq<Option<bool>>) -> Result<bool, int>
    decreases outcomes.len(),
{
    if outcomes.len() == 0 {
        Ok(false)
    } else {
        match outcomes.first() {
            Some(true) => Ok(true),
            None => Err(0),
            Some(false) => match ignore_verdict(outcomes.drop_first()) {
                Ok(hit) => Ok(hit),
                Err(at) => Err(at + 1),
            },
        }
    }
}

/// Judges the searches of the ignore patterns, in the order of the
/// patterns: the path is ignored where a pattern matches and every pattern
/// before it is a regular expression that does not match. A pattern that is
/// no regular expression, before any pattern matches, is an error; its
/// index comes back. With no match and no such pattern the path is not
/// ignored.
pub fn first_verdict(outcomes: &Vec<Option<bool>>) -> (verdict: Result<bool, usize>)
    ensures
        match ignore_verdict(outcomes@) {
            Ok(hit) => verdict == Ok::<bool, usize>(hit),
            Err(at) => verdict == Err::<bool, usize>(at as usize) && 0 <= at < outcomes@.len(),
        },
        verdict matches Ok(hit) ==> hit == exists|i: int|
            0 <= i < outcomes@.len() && #[trigger] outcomes@[i] == Some(true),
        verdict matches Err(at) ==> outcomes@[at as int] is None && forall|j: int|
            0 <= j < at ==> #[trigger] outcomes@[j] == Some(false),
{
    let mut i: usize = 0;
    assert(outcomes@.subrange(0, outcomes@.len() as int) =~= outcomes@);
    while i < outcomes.len()
        invariant
            i <= outcomes.len(),
            forall|j: int| 0 <= j < i ==> #[trigger] outcomes@[j] == Some(false),
            match ignore_verdict(outcomes@.subrange(i as int, outcomes@.len() as int)) {
                Ok(hit) => ignore_verdict(outcomes@) == Ok::<bool, int>(hit),
                Err(at) => ignore_verdict(outcomes@) == Err::<bool, int>(at + i),
            },
        decreases outcomes.len() - i,
    {
        let ghost rest = outcomes@.subrange(i as int, outcomes@.len() as int);
        proof {
            assert(rest.first() == outcomes@[i as int]);
            assert(rest.drop_first() =~= outcomes@.subrange(i + 1, outcomes@.len() as int));
        }
        match outcomes[i] {
            Some(true) => {
                return Ok(true);
            },
            None => {
                return Err(i);
            },
            Some(false) => {},
        }
        i += 1;
    }
    Ok(false)
}

/// What the search of `pattern` in `path` gives: whether it finds a match,
/// or nothing where the pattern does not compile.
pub open spec fn outcome_of(pattern: Seq<char>, path: Seq<char>) -> Option<bool> {
    if regex_compiles(pattern) {
        Some(regex_finds(pattern, path))
    } else {
        None
    }
}

/// What the searches of `patterns` in `path` give, in the order of the
/// patterns.
pub open spec fn outcomes_of(patterns: Seq<String>, path: Seq<char>) -> Seq<Option<bool>> {
    Seq::new(patterns.len(), |i: int| outcome_of(patterns[i]@, path))
}

/// Whether a changed file is to be passed over: one of the ignore patterns,
/// read as a regular expression, finds a match in its path, and every
/// pattern before it compiles. A pattern that does not compile, with no
/// match before it, is an error that carries the pattern. Every pattern is
/// searched.
pub fn shall_be_ignored(path: &str, ignore_pattern: &Vec<String>) -> (ignored: Result<
    bool,
    WatchError,
>)
    ensures
        match ignore_verdict(outcomes_of(ignore_pattern@, path@)) {
            Ok(hit) => ignored matches Ok(found) && found == hit,
            Err(at) => ignored matches Err(WatchError::InvalidPattern(pattern)) && pattern@
                == ignore_pattern@[at]@,
        },
        ignored matches Ok(hit) ==> hit == ignored_by(path@, ignore_pattern@),
{
    let mut outcomes: Vec<Option<bool>> = Vec::new();
    let mut i: usize = 0;
    while i < ignore_pattern.len()
        invariant
            i <= ignore_pattern.len(),
            outcomes@.len() == i,
            forall|k: int|
                0 <= k < i ==> #[trigger] outcomes@[k] == outcome_of(ignore_pattern@[k]@, path@),
        decreases ignore_pattern.len() - i,
    {
        let outcome: Option<bool> = match search(ignore_pattern[i].as_str(), path) {
            Ok(hit) => Some(hit),
            Err(_) => None,
        };
        outcomes.push(outcome);
        i += 1;
    }
    assert(outcomes@ =~= outcomes_of(ignore_pattern@, path@));
    match first_verdict(&outcomes) {
        Ok(hit) => {
            proof {
                lemma_verdict_is_match(ignore_pattern@, path@);
            }
            Ok(hit)
        },
        Err(at) => Err(WatchError::InvalidPattern(ignore_pattern[at].clone())),
    }
}

/// Where the searches lead to a verdict, the verdict says whether one of
/// the patterns finds a match.
pub proof fn lemma_verdict_is_match(patterns: Seq<String>, path: Seq<char>)
    ensures
        ignore_verdict(outcomes_of(patterns, path)) matches Ok(hit) ==> hit == ignored_by(
            path,
            patterns,
        ),
{
    let outcomes = outcomes_of(patterns, path);
    lemma_verdict_meaning(outcomes);
    match ignore_verdict(outcomes) {
        Ok(hit) => {
            if hit {
                let k = choose|k: int|
                    0 <= k < outcomes.len() && #[trigger] outcomes[k] == Some(true);
                assert(regex_finds(patterns[k]@, path));
            } else {
                assert forall|k: int| 0 <= k < patterns.len() implies !regex_finds(
                    (#[trigger] patterns[k])@,
                    path,
                ) by {
                    lemma_verdict_ok(outcomes, k);
                }
            }
        },
        Err(_) => {},
    }
}

/// What a verdict says of the outcomes: a match where one of them is a
/// match, and an index within the list where there is an error.
pub proof fn lemma_verdict_meaning(outcomes: Seq<Option<bool>>)
    ensures
        ignore_verdict(outcomes) == Ok::<bool, int>(true) ==> exists|k: int|
            0 <= k < outcomes.len() && #[trigger] outcomes[k] == Some(true),
        ignore_verdict(outcomes) matches Err(at) ==> 0 <= at < outcomes.len() && outcomes[at]
            is None,
    decreases outcomes.len(),
{
    if outcomes.len() > 0 {
        let rest = outcomes.drop_first();
        lemma_verdict_meaning(rest);
        match outcomes.first() {
            Some(true) => {
                assert(outcomes[0] == Some(true));
            },
            None => {},
            Some(false) => {
                if ignore_verdict(outcomes) == Ok::<bool, int>(true) {
                    let k = choose|k: int| 0 <= k < rest.len() && #[trigger] rest[k] == Some(true);
                    assert(outcomes[k + 1] == Some(true));
                }
                match ignore_verdict(rest) {
                    Err(at) => {
                        assert(outcomes[at + 1] == rest[at]);
                    },
                    Ok(_) => {},
                }
            },
        }
    }
}

/// Where the verdict is that nothing matched, every search gave an answer.
pub proof fn lemma_verdict_ok(outcomes: Seq<Option<bool>>, at: int)
    requires
        0 <= at < outcomes.len(),
        ignore_verdict(outcomes) == Ok::<bool, int>(false),
    ensures
        outcomes[at] == Some(false),
    decreases outcomes.len(),
{
    if at > 0 {
        lemma_verdict_ok(outcomes.drop_first(), at - 1);
    }
}

/// What is done about a file event.
#[derive(Debug, Clone, Copy, PartialEq, Eq, Structural)]
pub enum WatchAction {
    /// Nothing.
    Ignore,
    /// Analyse the file of the event, and show the report.
    Analyze,
}

/// What the watch loop remembers between events.
#[derive(Debug, Clone, Copy, PartialEq, Eq, Structural)]
pub struct WatchState {
    /// When the last analysis started, in milliseconds on the caller's
    /// clock; `None` before the first one.
    pub last_triggered: Option<u64>,
    /// The least time between the starts of two analyses, in milliseconds.
    pub debounce_interval: u64,
}

/// Whether one of `patterns` finds a match in `path`.
pub open spec fn ignored_by(path: Seq<char>, patterns: Seq<String>) -> bool {
    exists|i: int| 0 <= i < patterns.len() && regex_finds((#[trigger] patterns[i])@, path)
}

impl WatchState {
    /// The state at the start of a session: no analysis has started yet, so
    /// the first event that qualifies is not held back.
    pub fn new(debounce_interval: u64) -> (state: WatchState)
        ensures
            state == (WatchState { last_triggered: None, debounce_interval }),
    {
        WatchState { last_triggered: None, debounce_interval }
    }

    /// Whether an event at `now` comes too soon after the last analysis.
    pub open spec fn suppressed(self, now: u64) -> bool {
        match self.last_triggered {
            Some(last) => now < last || now - last < self.debounce_interval,
            None => false,
        }
    }

    /// The state after an event at `now`, and what is done about it. The
    /// file is analysed where its path is not ignored, its extension is
    /// watched and the event does not come too soon; the analysis then
    /// counts as started at `now`. Any other event changes nothing.
    pub open spec fn decided(self, ignored: bool, watched: bool, now: u64) -> (
        WatchState,
        WatchAction,
    ) {
        if !ignored && watched && !self.suppressed(now) {
            (
                WatchState { last_triggered: Some(now), debounce_interval: self.debounce_interval },
                WatchAction::Analyze,
            )
        } else {
            (self, WatchAction::Ignore)
        }
    }

    /// Decides about an event at `now`, given whether its path is ignored
    /// and whether its extension is watched.
    pub fn decide(&mut self, ignored: bool, watched: bool, now: u64) -> (action: WatchAction)
        ensures
            (*final(self), action) == old(self).decided(ignored, watched, now),
    {
        if ignored || !watched {
            return WatchAction::Ignore;
        }
        let too_soon: bool = match self.last_triggered {
            Some(last) => now < last || now - last < self.debounce_interval,
            None => false,
        };
        if too_soon {
            WatchAction::Ignore
        } else {
            self.last_triggered = Some(now);
            WatchAction::Analyze
        }
    }

    /// Decides about a change of the file at `path`, reported at `now`. The
    /// extension is looked at first: a file that is not of a watched kind
    /// is passed over, whatever the ignore patterns are. For a watched file
    /// the ignore patterns are searched: a pattern that does not compile,
    /// with no pattern before it that matches, is an error and changes
    /// nothing. A path that an ignore pattern matches is never analysed,
    /// whatever its extension.
    pub fn on_event(
        &mut self,
        path: &str,
        now: u64,
        watch_extensions: &Vec<String>,
        ignore_patterns: &Vec<String>,
    ) -> (action: Result<WatchAction, WatchError>)
        ensures
            !relevant(path@, watch_extensions.deep_view()) ==> action == Ok::<
                WatchAction,
                WatchError,
            >(WatchAction::Ignore) && *final(self) == *old(self),
            relevant(path@, watch_extensions.deep_view()) ==> match ignore_verdict(
                outcomes_of(ignore_patterns@, path@),
            ) {
                Ok(hit) => action matches Ok(done) && (*final(self), done) == old(self).decided(
                    hit,
                    true,
                    now,
                ),
                Err(at) => action matches Err(WatchError::InvalidPattern(pattern)) && pattern@
                    == ignore_patterns@[at]@ && *final(self) == *old(self),
            },
            ignored_by(path@, ignore_patterns@) ==> !(action == Ok::<WatchAction, WatchError>(
                WatchAction::Analyze,
            )),
    {
        if !is_relevant(path, watch_extensions) {
            return Ok(WatchAction::Ignore);
        }
        match shall_be_ignored(path, ignore_patterns) {
            Ok(ignored) => Ok(self.decide(ignored, true, now)),
            Err(why) => Err(why),
        }
    }
}

/// The state after a run of events. Each event says whether it qualifies,
/// that is, whether its path is not ignored and its extension is watched,
/// and when it was reported.
pub open spec fn state_after(start: WatchState, events: Seq<(bool, u64)>) -> WatchState
    decreases events.len(),
{
    if events.len() == 0 {
        start
    } else {
        state_after(start, events.drop_last()).decided(
            false,
            events.last().0,
            events.last().1,
        ).0
    }
}

/// Whether the event with index `at` starts an analysis.
pub open spec fn analysed(start: WatchState, events: Seq<(bool, u64)>, at: int) -> bool {
    state_after(start, events.take(at)).decided(false, events[at].0, events[at].1).1
        == WatchAction::Analyze
}

/// After an analysis has started, the state remembers the start of an
/// analysis that is no older: an event that comes before the last start is
/// held back, so the remembered start never goes back.
pub proof fn lemma_last_triggered(start: WatchState, events: Seq<(bool, u64)>, at: int, upto: int)
    requires
        0 <= at < upto <= events.len(),
        analysed(start, events, at),
    ensures
        state_after(start, events.take(upto)).debounce_interval == start.debounce_interval,
        state_after(start, events.take(upto)).last_triggered matches Some(last) && events[at].1
            <= last,
    decreases upto - at,
{
    lemma_interval_is_kept(start, events.take(upto - 1));
    assert(events.take(upto).drop_last() =~= events.take(upto - 1));
    assert(events.take(upto).last() == events[upto - 1]);
    if upto - 1 > at {
        lemma_last_triggered(start, events, at, upto - 1);
    }
}

/// No event changes the debounce interval.
pub proof fn lemma_interval_is_kept(start: WatchState, events: Seq<(bool, u64)>)
    ensures
        state_after(start, events).debounce_interval == start.debounce_interval,
    decreases events.len(),
{
    if events.len() > 0 {
        lemma_interval_is_kept(start, events.drop_last());
    }
}

/// No two analyses of a session start less than the debounce interval
/// apart, however many events come in between and whatever their times: of
/// any two events that start an analysis, the later is reported at least the
/// interval after the earlier.
pub proof fn law_analyses_are_spaced(
    start: WatchState,
    events: Seq<(bool, u64)>,
    earlier: int,
    later: int,
)
    requires
        0 <= earlier < later < events.len(),
        analysed(start, events, earlier),
        analysed(start, events, later),
    ensures
        events[later].1 - events[earlier].1 >= start.debounce_interval,
{
    lemma_last_triggered(start, events, earlier, later);
}

/// The first event of a session that qualifies starts an analysis, whenever
/// it comes.
pub proof fn law_first_event_is_not_suppressed(debounce_interval: u64, now: u64)
    ensures
        (WatchState { last_triggered: None, debounce_interval }).decided(false, true, now).1
            == WatchAction::Analyze,
{
}

/// A path that an ignore pattern matches is never analysed, even where its
/// extension is watched, and an event whose extension is not watched is
/// never analysed either.
pub proof fn law_ignored_or_unwatched_is_not_analysed(
    state: WatchState,
    ignored: bool,
    watched: bool,
    now: u64,
)
    requires
        ignored || !watched,
    ensures
        state.decided(ignored, watched, now) == (state, WatchAction::Ignore),
{
}

} // verus!
