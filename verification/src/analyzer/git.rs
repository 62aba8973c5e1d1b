//! Facts of a file's history in the repository.
//!
//! The history itself is looked up by the caller. The inspector says where
//! to look, and judges what was found: whether the file is stale, and who
//! changed it most often.

use crate::text::{find, first_occurrence, has_substring, to_chars};
use vstd::prelude::*;
use vstd::string::*;

verus! {

/// The number of seconds of a day.
pub const SECONDS_PER_DAY: i64 = 86400;

/// The name under which changes without an author's name are counted.
pub open spec fn unknown_author() -> Seq<char> {
    "Unknown"@
}

/// The part of `path` from the first `src/` on, where `path` holds `src/`.
pub open spec fn path_from_src(path: Seq<char>) -> Option<Seq<char>> {
    if has_substring(path, "src/"@) {
        let at = choose|at: int| first_occurrence(path, "src/"@, at);
        Some(path.subrange(at, path.len() as int))
    } else {
        None
    }
}

/// The part of `path` before the first `/src`, where `path` holds `/src`.
pub open spec fn repository_part(path: Seq<char>) -> Option<Seq<char>> {
    if has_substring(path, "/src"@) {
        let at = choose|at: int| first_occurrence(path, "/src"@, at);
        Some(path.subrange(0, at))
    } else {
        None
    }
}

/// At most one index is the first occurrence.
pub proof fn lemma_first_occurrence_unique(hay: Seq<char>, needle: Seq<char>, a: int, b: int)
    requires
        first_occurrence(hay, needle, a),
        first_occurrence(hay, needle, b),
    ensures
        a == b,
{
}

/// The path of a file as the repository knows it: the part of `path` from
/// the first `src/` on. `None` where `path` holds no `src/`.
pub fn extract_path_from_src(path: &str) -> (relative: Option<String>)
    ensures
        match path_from_src(path@) {
            Some(expected) => relative matches Some(found) && found@ == expected,
            None => relative is None,
        },
{
    let chars = to_chars(path);
    let marker = to_chars("src/");
    match find(chars.as_slice(), marker.as_slice()) {
        Some(at) => {
            proof {
                let chosen = choose|c: int| first_occurrence(path@, "src/"@, c);
                lemma_first_occurrence_unique(path@, "src/"@, at as int, chosen);
            }
            Some(String::from_str(path.substring_char(at, chars.len())))
        },
        None => None,
    }
}

/// The directory of the repository: the part of `path` before the first
/// `/src`. `None` where `path` holds no `/src`.
pub fn extract_repository_path(path: &str) -> (repository: Option<String>)
    ensures
        match repository_part(path@) {
            Some(expected) => repository matches Some(found) && found@ == expected,
            None => repository is None,
        },
{
    let chars = to_chars(path);
    let marker = to_chars("/src");
    match find(chars.as_slice(), marker.as_slice()) {
        Some(at) => {
            proof {
                let chosen = choose|c: int| first_occurrence(path@, "/src"@, c);
                lemma_first_occurrence_unique(path@, "/src"@, at as int, chosen);
            }
            Some(String::from_str(path.substring_char(0, at)))
        },
        None => None,
    }
}

/// The latest of the commit times, and zero where none is later than that.
pub open spec fn latest_time(commit_times: Seq<i64>) -> int
    decreases commit_times.len(),
{
    if commit_times.len() == 0 {
        0
    } else {
        let before = latest_time(commit_times.drop_last());
        if commit_times.last() > before {
            commit_times.last() as int
        } else {
            before
        }
    }
}

/// Whether a file last changed at `latest` is stale at `now`: more than
/// `stale_days` whole days lie between the two. A change that is not in the
/// past leaves the file fresh.
pub open spec fn stale_at(latest: int, now: int, stale_days: int) -> bool {
    now > latest && (now - latest) / (SECONDS_PER_DAY as int) > stale_days
}

/// The names under which the changes are counted: the author's name, or
/// `Unknown` where the change has none.
pub open spec fn counted_names(authors: Seq<Option<String>>) -> Seq<Seq<char>> {
    Seq::new(
        authors.len(),
        |i: int|
            match authors[i] {
                Some(name) => name@,
                None => unknown_author(),
            },
    )
}

/// How often `name` stands in `names`.
pub open spec fn occurrences(names: Seq<Seq<char>>, name: Seq<char>) -> nat
    decreases names.len(),
{
    if names.len() == 0 {
        0
    } else if names.last() == name {
        occurrences(names.drop_last(), name) + 1
    } else {
        occurrences(names.drop_last(), name)
    }
}

/// The names of `names` without repetition, each where it occurs first.
pub open spec fn distinct_names(names: Seq<Seq<char>>) -> Seq<Seq<char>>
    decreases names.len(),
{
    if names.len() == 0 {
        Seq::empty()
    } else {
        let before = distinct_names(names.drop_last());
        if before.contains(names.last()) {
            before
        } else {
            before.push(names.last())
        }
    }
}

/// Each name of `names` with the number of times it occurs, in the order in
/// which the names occur first.
pub open spec fn tally_of(names: Seq<Seq<char>>) -> Seq<(Seq<char>, nat)> {
    Seq::new(
        distinct_names(names).len(),
        |i: int| (distinct_names(names)[i], occurrences(names, distinct_names(names)[i])),
    )
}

/// The index of the entry with the largest count; of several such entries,
/// the first.
pub open spec fn leader(tally: Seq<(Seq<char>, nat)>) -> int
    decreases tally.len(),
{
    if tally.len() <= 1 {
        0
    } else {
        let before = leader(tally.drop_last());
        if tally.last().1 > tally[before].1 {
            tally.len() - 1
        } else {
            before
        }
    }
}

/// The name that occurs most often in `names`; of several such names, the
/// one that occurs first. `None` where there is no name.
pub open spec fn most_frequent(names: Seq<Seq<char>>) -> Option<Seq<char>> {
    if names.len() == 0 {
        None
    } else {
        Some(tally_of(names)[leader(tally_of(names))].0)
    }
}

/// A tally as texts and numbers.
pub open spec fn tally_views(tally: Seq<(String, usize)>) -> Seq<(Seq<char>, nat)> {
    Seq::new(tally.len(), |i: int| (tally[i].0@, tally[i].1 as nat))
}

/// A name occurs no more often than there are names, and a name occurs at
/// least once exactly where it stands in the list.
pub proof fn lemma_occurrences_bounds(names: Seq<Seq<char>>, name: Seq<char>)
    ensures
        occurrences(names, name) <= names.len(),
        occurrences(names, name) > 0 <==> names.contains(name),
    decreases names.len(),
{
    if names.len() > 0 {
        let front = names.drop_last();
        lemma_occurrences_bounds(front, name);
        if occurrences(names, name) > 0 {
            if names.last() == name {
                assert(names[names.len() - 1] == name);
            } else {
                let k = choose|k: int| 0 <= k < front.len() && front[k] == name;
                assert(names[k] == name);
            }
        }
        if names.contains(name) {
            let k = choose|k: int| 0 <= k < names.len() && names[k] == name;
            if k < names.len() - 1 {
                assert(front[k] == name);
            }
        }
    }
}

/// The distinct names hold a name exactly where the names do, and hold no
/// name twice.
pub proof fn lemma_distinct_names(names: Seq<Seq<char>>)
    ensures
        forall|name: Seq<char>| #[trigger]
            distinct_names(names).contains(name) <==> names.contains(name),
        forall|i: int, j: int|
            0 <= i < j < distinct_names(names).len() ==> distinct_names(names)[i]
                != distinct_names(names)[j],
        names.len() > 0 ==> distinct_names(names).len() > 0,
        distinct_names(names).len() <= names.len(),
    decreases names.len(),
{
    if names.len() > 0 {
        let front = names.drop_last();
        let before = distinct_names(front);
        let after = distinct_names(names);
        lemma_distinct_names(front);
        assert forall|name: Seq<char>| #[trigger]
            after.contains(name) <==> names.contains(name) by {
            if after.contains(name) {
                let k = choose|k: int| 0 <= k < after.len() && after[k] == name;
                if k < before.len() {
                    assert(before[k] == name);
                    assert(before.contains(name));
                    let m = choose|m: int| 0 <= m < front.len() && front[m] == name;
                    assert(names[m] == name);
                } else {
                    assert(names[names.len() - 1] == name);
                }
            }
            if names.contains(name) {
                let m = choose|m: int| 0 <= m < names.len() && names[m] == name;
                if m < front.len() {
                    assert(front[m] == name);
                    assert(before.contains(name));
                    let k = choose|k: int| 0 <= k < before.len() && before[k] == name;
                    assert(after[k] == name);
                } else if before.contains(name) {
                    let k = choose|k: int| 0 <= k < before.len() && before[k] == name;
                    assert(after[k] == name);
                } else {
                    assert(after[after.len() - 1] == name);
                }
            }
        }
        assert forall|i: int, j: int| 0 <= i < j < after.len() implies after[i] != after[j] by {
            if j < before.len() {
                assert(before[i] != before[j]);
            } else {
                assert(before[i] == after[i]);
                assert(before.contains(after[i]));
            }
        }
    }
}

/// The leader is an entry, and no entry has a larger count.
pub proof fn lemma_leader(tally: Seq<(Seq<char>, nat)>)
    requires
        tally.len() > 0,
    ensures
        0 <= leader(tally) < tally.len(),
        forall|k: int| 0 <= k < tally.len() ==> (#[trigger] tally[k]).1 <= tally[leader(tally)].1,
    decreases tally.len(),
{
    if tally.len() > 1 {
        let front = tally.drop_last();
        lemma_leader(front);
        assert forall|k: int| 0 <= k < tally.len() implies (#[trigger] tally[k]).1
            <= tally[leader(tally)].1 by {
            if k < front.len() {
                assert(front[k] == tally[k]);
                assert(front[leader(front)] == tally[leader(front)]);
            }
        }
    }
}

/// No name outnumbers the most frequent one, which occurs at least once.
pub proof fn law_most_frequent_is_outnumbered_by_none(names: Seq<Seq<char>>)
    requires
        names.len() > 0,
    ensures
        most_frequent(names) matches Some(name) && occurrences(names, name) > 0 && forall|
            other: Seq<char>,
        | #[trigger] occurrences(names, other) <= occurrences(names, name),
{
    let tally = tally_of(names);
    let distinct = distinct_names(names);
    lemma_distinct_names(names);
    lemma_leader(tally);
    let name = tally[leader(tally)].0;
    assert(name == distinct[leader(tally)]);
    assert(distinct.contains(name));
    lemma_occurrences_bounds(names, name);
    assert forall|other: Seq<char>| #[trigger]
        occurrences(names, other) <= occurrences(names, name) by {
        lemma_occurrences_bounds(names, other);
        if occurrences(names, other) > 0 {
            assert(distinct.contains(other));
            let k = choose|k: int| 0 <= k < distinct.len() && distinct[k] == other;
            assert(tally[k].1 == occurrences(names, other));
        }
    }
}

/// Where the repository of a file lies.
#[derive(Debug)]
pub struct GitInspector {
    /// The directory of the repository.
    pub repository_path: String,
}

impl GitInspector {
    /// The inspector for the repository that holds the file at `path`. The
    /// repository's directory is the part of `path` before the first `/src`;
    /// a path without `/src` is refused.
    pub fn new(path: &str) -> (made: Result<GitInspector, String>)
        ensures
            match repository_part(path@) {
                Some(expected) => made matches Ok(inspector) && inspector.repository_path@
                    == expected,
                None => made matches Err(message) && message@ == "Invalid repository path"@,
            },
    {
        match extract_repository_path(path) {
            Some(repository_path) => Ok(GitInspector { repository_path }),
            None => Err(String::from_str("Invalid repository path")),
        }
    }

    /// The path under which the history of the file at `path` is looked up:
    /// the part from the first `src/` on, or all of `path` where it holds no
    /// `src/`.
    pub fn history_path(&self, path: &str) -> (relative: String)
        ensures
            relative@ == match path_from_src(path@) {
                Some(part) => part,
                None => path@,
            },
    {
        match extract_path_from_src(path) {
            Some(relative) => relative,
            None => String::from_str(path),
        }
    }

    /// Whether `path` is among the files with uncommitted changes.
    pub fn is_file_changed(&self, changed_files: &Vec<String>, path: &str) -> (changed: bool)
        ensures
            changed == exists|i: int|
                0 <= i < changed_files@.len() && (#[trigger] changed_files@[i])@ == path@,
    {
        let wanted = String::from_str(path);
        let mut i: usize = 0;
        while i < changed_files.len()
            invariant
                i <= changed_files.len(),
                wanted@ == path@,
                forall|k: int| 0 <= k < i ==> (#[trigger] changed_files@[k])@ != path@,
            decreases changed_files.len() - i,
        {
            if changed_files[i] == wanted {
                return true;
            }
            i += 1;
        }
        false
    }

    /// Whether the file is stale at `now`, given the times of the commits
    /// that last touched its lines, in seconds since the epoch: more than
    /// `stale_days` whole days have passed since the latest of them. A file
    /// without history counts as last changed at the epoch.
    pub fn is_file_stale(&self, commit_times: &Vec<i64>, now: i64, stale_days: u64) -> (stale: bool)
        ensures
            stale == stale_at(latest_time(commit_times@), now as int, stale_days as int),
    {
        let mut latest: i64 = 0;
        let mut i: usize = 0;
        while i < commit_times.len()
            invariant
                i <= commit_times.len(),
                latest >= 0,
                latest as int == latest_time(commit_times@.take(i as int)),
            decreases commit_times.len() - i,
        {
            proof {
                assert(commit_times@.take(i + 1).drop_last() =~= commit_times@.take(i as int));
            }
            if commit_times[i] > latest {
                latest = commit_times[i];
            }
            i += 1;
        }
        assert(commit_times@.take(i as int) =~= commit_times@);
        if now <= latest {
            return false;
        }
        let age_days: i64 = (now - latest) / SECONDS_PER_DAY;
        age_days as u64 > stale_days
    }

    /// How many changes each author made, given the author of each change.
    /// A change without an author's name counts for `Unknown`. The names
    /// come in the order in which they first occur.
    pub fn file_commit_authors(&self, authors: &Vec<Option<String>>) -> (tally: Vec<
        (String, usize),
    >)
        ensures
            tally_views(tally@) == tally_of(counted_names(authors@)),
    {
        let ghost names = counted_names(authors@);
        let mut tally: Vec<(String, usize)> = Vec::new();
        let mut i: usize = 0;
        assert(tally_views(tally@) =~= tally_of(names.take(0)));
        while i < authors.len()
            invariant
                i <= authors.len(),
                names == counted_names(authors@),
                tally_views(tally@) == tally_of(names.take(i as int)),
            decreases authors.len() - i,
        {
            let name: String = match &authors[i] {
                Some(name) => name.clone(),
                None => String::from_str("Unknown"),
            };
            let ghost seen = names.take(i as int);
            let ghost grown = names.take(i + 1);
            let ghost distinct = distinct_names(seen);
            proof {
                assert(name@ == names[i as int]);
                assert(grown.drop_last() =~= seen);
                assert(grown.last() == name@);
                lemma_distinct_names(seen);
                assert(tally_views(tally@).len() == distinct.len());
                assert forall|k: int| 0 <= k < tally@.len() implies (#[trigger] tally@[k]).0@
                    == distinct[k] && tally@[k].1 as nat == occurrences(seen, distinct[k]) by {
                    assert(tally_views(tally@)[k] == tally_of(seen)[k]);
                }
            }
            let mut at: usize = 0;
            let mut found: bool = false;
            while at < tally.len()
                invariant_except_break
                    at <= tally.len(),
                    !found,
                    forall|k: int| 0 <= k < at ==> (#[trigger] tally@[k]).0@ != name@,
                ensures
                    at <= tally.len(),
                    found ==> at < tally.len() && tally@[at as int].0@ == name@,
                    !found ==> forall|k: int|
                        0 <= k < tally@.len() ==> (#[trigger] tally@[k]).0@ != name@,
                decreases tally.len() - at,
            {
                if tally[at].0 == name {
                    found = true;
                    break;
                }
                at += 1;
            }
            let ghost old_tally = tally@;
            if found {
                proof {
                    lemma_occurrences_bounds(seen, name@);
                    assert(distinct[at as int] == name@);
                    assert(distinct.contains(name@));
                }
                let so_far: usize = tally[at].1;
                let slot = tally.remove(at);
                tally.insert(at, (slot.0, so_far + 1));
                proof {
                    assert(distinct_names(grown) == distinct);
                    assert forall|k: int| 0 <= k < tally@.len() implies tally_views(tally@)[k]
                        == tally_of(grown)[k] by {
                        assert(old_tally[k].0@ == distinct[k]);
                        if k == at {
                            assert(tally@[k].0@ == name@);
                        } else {
                            assert(tally@[k] == old_tally[k]);
                            if k < at {
                                assert(distinct[k] != distinct[at as int]);
                            } else {
                                assert(distinct[at as int] != distinct[k]);
                            }
                        }
                    }
                    assert(tally_views(tally@) =~= tally_of(grown));
                }
            } else {
                proof {
                    lemma_occurrences_bounds(seen, name@);
                    if distinct.contains(name@) {
                        let k = choose|k: int| 0 <= k < distinct.len() && distinct[k] == name@;
                        assert(old_tally[k].0@ == name@);
                        assert(false);
                    }
                    assert(distinct_names(grown) == distinct.push(name@));
                }
                tally.push((name, 1));
                proof {
                    assert forall|k: int| 0 <= k < tally@.len() implies tally_views(tally@)[k]
                        == tally_of(grown)[k] by {
                        if k < old_tally.len() {
                            assert(tally@[k] == old_tally[k]);
                            assert(old_tally[k].0@ == distinct[k]);
                            assert(distinct.contains(distinct[k]));
                        }
                    }
                    assert(tally_views(tally@) =~= tally_of(grown));
                }
            }
            i += 1;
        }
        assert(names.take(i as int) =~= names);
        tally
    }

    /// The author who made the most changes, given the author of each
    /// change; of several such authors, the one whose first change comes
    /// first. `None` where there is no change.
    pub fn most_frequent_author(&self, authors: &Vec<Option<String>>) -> (most: Option<String>)
        ensures
            match most_frequent(counted_names(authors@)) {
                Some(expected) => most matches Some(name) && name@ == expected,
                None => most is None,
            },
    {
        let tally = self.file_commit_authors(authors);
        let ghost names = counted_names(authors@);
        let ghost views = tally_views(tally@);
        proof {
            lemma_distinct_names(names);
            assert(views.len() == distinct_names(names).len());
        }
        if tally.len() == 0 {
            return None;
        }
        let mut best: usize = 0;
        let mut i: usize = 1;
        assert(views.take(1).len() == 1);
        while i < tally.len()
            invariant
                1 <= i <= tally.len(),
                best < i,
                views == tally_views(tally@),
                best == leader(views.take(i as int)),
            decreases tally.len() - i,
        {
            proof {
                assert(views.take(i + 1).drop_last() =~= views.take(i as int));
                assert(views.take(i + 1).last() == views[i as int]);
                assert(views.take(i + 1)[best as int] == views[best as int]);
                assert(views[i as int].1 == tally@[i as int].1);
                assert(views[best as int].1 == tally@[best as int].1);
            }
            if tally[i].1 > tally[best].1 {
                best = i;
            }
            i += 1;
        }
        proof {
            assert(views.take(i as int) =~= views);
            assert(views[best as int].0 == tally@[best as int].0@);
        }
        Some(tally[best].0.clone())
    }
}

} // verus!
