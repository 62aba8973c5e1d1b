//! The report on one changed file.
//!
//! The caller runs the formatter and the linter, reads and parses the file,
//! reads the rule file and looks up the history, and hands in what came of
//! each. From that the report is put together in a fixed order. A step that
//! failed adds to the errors and stops no other step.

use crate::analyzer::complexity_inspector::{
    analyze_file, functions_of, FunctionItem, SourceFile,
};
use crate::analyzer::custom_rules::{
    apply_rules, evaluation, load_custom_rules_from_toml, malformed_text, reports,
    unreadable_text, RuleFile,
};
use crate::analyzer::git::{
    counted_names, extract_path_from_src, latest_time, most_frequent, path_from_src,
    repository_part, stale_at, GitInspector,
};
use crate::analyzer::messages::{
    clippy, complexity, function_size, git_is_stale, git_most_frequent_author,
};
use crate::config::GrumpinessLevel;
use crate::logger::model::LogLevel;
use crate::text::{
    contains, debug_quoted, decode_utf8_lossy, has_substring, lemma_next_newline_bounds, line_at,
    lines, lines_from, lowercase, split_lines, starts_with, to_chars, to_debug_quoted,
    trim_start, trimmed_starts_with, utf8_lossy,
};
use vstd::prelude::*;
use vstd::slice::*;
use vstd::string::*;

verus! {

/// A file counts as stale when its latest change is more than this many days
/// old.
pub const STALE_AFTER_DAYS: u64 = 7;

/// What came of running an outside tool.
#[derive(Debug)]
pub enum ToolRun {
    /// The tool could not be run; the text says why.
    Failed(String),
    /// The tool ran: whether it reported success, and what it wrote to its
    /// standard error, as text.
    Finished { success: bool, stderr: String },
}

impl ToolRun {
    /// The run of a tool that ended with the given verdict and wrote the
    /// given bytes to its standard error. Bytes that are not UTF-8 are
    /// replaced as `utf8_lossy` says.
    pub fn finished(success: bool, stderr: &[u8]) -> (run: ToolRun)
        ensures
            run matches ToolRun::Finished { success: verdict, stderr: text } && verdict == success
                && text@ == utf8_lossy(stderr@),
    {
        ToolRun::Finished { success, stderr: decode_utf8_lossy(stderr) }
    }
}

/// What was found out about the history of the changed file.
#[derive(Debug)]
pub enum History {
    /// The repository could not be opened; the text says why.
    Unavailable(String),
    /// The two lookups, each with its own outcome, and the time at which
    /// they were made, in seconds since the epoch.
    Found {
        /// The times of the commits that last touched the file's lines.
        commit_times: Result<Vec<i64>, String>,
        /// The author of each of these changes, where the change names one.
        authors: Result<Vec<Option<String>>, String>,
        /// When the lookups were made.
        now: i64,
    },
}

/// All that was gathered about one changed file.
#[derive(Debug)]
pub struct Evidence {
    /// The formatter's run on the file.
    pub formatter: ToolRun,
    /// The linter's run on the project.
    pub linter: ToolRun,
    /// The file's text, or why it could not be read.
    pub code: Result<String, String>,
    /// The file as a syntax tree, or why it could not be read or parsed.
    pub syntax: Result<SourceFile, String>,
    /// What was found at the path of the rule file.
    pub rules: RuleFile,
    /// What the repository says of the file.
    pub history: History,
}

/// The report: what is just said, what is wrong with the file, and what
/// could not be found out. Each buffer holds its messages in the order of
/// the steps, one after the other, a line feed after each. A report that has
/// been handed out does not change any more.
#[derive(Debug)]
pub struct AnalysisReport {
    info: String,
    warning: String,
    error: String,
}

/// The three buffers as texts.
pub struct Buffers {
    pub info: Seq<char>,
    pub warning: Seq<char>,
    pub error: Seq<char>,
}

impl Buffers {
    /// Nothing in any buffer.
    pub open spec fn empty() -> Buffers {
        Buffers { info: Seq::empty(), warning: Seq::empty(), error: Seq::empty() }
    }

    /// `text` on a line of its own among the information.
    pub open spec fn info_line(text: Seq<char>) -> Buffers {
        Buffers { info: text + "\n"@, warning: Seq::empty(), error: Seq::empty() }
    }

    /// `text` on a line of its own among the warnings.
    pub open spec fn warning_line(text: Seq<char>) -> Buffers {
        Buffers { info: Seq::empty(), warning: text + "\n"@, error: Seq::empty() }
    }

    /// `block` among the warnings, as it is.
    pub open spec fn warnings(block: Seq<char>) -> Buffers {
        Buffers { info: Seq::empty(), warning: block, error: Seq::empty() }
    }

    /// `text` on a line of its own among the errors.
    pub open spec fn error_line(text: Seq<char>) -> Buffers {
        Buffers { info: Seq::empty(), warning: Seq::empty(), error: text + "\n"@ }
    }

    /// The buffers of `self`, each followed by that of `next`.
    pub open spec fn followed_by(self, next: Buffers) -> Buffers {
        Buffers {
            info: self.info + next.info,
            warning: self.warning + next.warning,
            error: self.error + next.error,
        }
    }

    /// The report as one text: information, then warnings, then errors.
    pub open spec fn text(self) -> Seq<char> {
        self.info + self.warning + self.error
    }
}

impl View for AnalysisReport {
    type V = Buffers;

    closed spec fn view(&self) -> Buffers {
        Buffers { info: self.info@, warning: self.warning@, error: self.error@ }
    }
}

impl AnalysisReport {
    /// What is just said.
    pub fn info(&self) -> (text: &str)
        ensures
            text@ == self@.info,
    {
        self.info.as_str()
    }

    /// What is wrong with the file.
    pub fn warning(&self) -> (text: &str)
        ensures
            text@ == self@.warning,
    {
        self.warning.as_str()
    }

    /// What could not be found out.
    pub fn error(&self) -> (text: &str)
        ensures
            text@ == self@.error,
    {
        self.error.as_str()
    }

    /// A report that says nothing yet.
    fn new() -> (report: AnalysisReport)
        ensures
            report@ == Buffers::empty(),
    {
        AnalysisReport { info: String::new(), warning: String::new(), error: String::new() }
    }

    /// Adds a line to the information.
    fn add_info(&mut self, text: &str)
        ensures
            final(self)@ == old(self)@.followed_by(Buffers::info_line(text@)),
    {
        self.info.append(text);
        self.info.append("\n");
        proof {
            assert(self.info@ =~= old(self).info@ + (text@ + "\n"@));
            assert(self.warning@ =~= old(self).warning@ + Seq::<char>::empty());
            assert(self.error@ =~= old(self).error@ + Seq::<char>::empty());
        }
    }

    /// Adds a line to the warnings.
    fn add_warning(&mut self, text: &str)
        ensures
            final(self)@ == old(self)@.followed_by(Buffers::warning_line(text@)),
    {
        self.warning.append(text);
        self.warning.append("\n");
        proof {
            assert(self.warning@ =~= old(self).warning@ + (text@ + "\n"@));
            assert(self.info@ =~= old(self).info@ + Seq::<char>::empty());
            assert(self.error@ =~= old(self).error@ + Seq::<char>::empty());
        }
    }

    /// Adds a line to the errors: what failed, and after it why.
    fn add_error(&mut self, what: &str, why: &str)
        ensures
            final(self)@ == old(self)@.followed_by(Buffers::error_line(what@ + why@)),
    {
        self.error.append(what);
        self.error.append(why);
        self.error.append("\n");
        proof {
            assert(self.error@ =~= old(self).error@ + ((what@ + why@) + "\n"@));
            assert(self.info@ =~= old(self).info@ + Seq::<char>::empty());
            assert(self.warning@ =~= old(self).warning@ + Seq::<char>::empty());
        }
    }

    /// Adds lines to the warnings. `block` holds them, a line feed after
    /// each.
    fn add_warnings(&mut self, block: &str)
        ensures
            final(self)@ == old(self)@.followed_by(Buffers::warnings(block@)),
    {
        self.warning.append(block);
        proof {
            assert(self.info@ =~= old(self).info@ + Seq::<char>::empty());
            assert(self.error@ =~= old(self).error@ + Seq::<char>::empty());
        }
    }

    /// The report as one text: information, then warnings, then errors.
    pub fn render(&self) -> (text: String)
        ensures
            text@ == self@.text(),
    {
        let mut text = String::from_str(self.info.as_str());
        text.append(self.warning.as_str());
        text.append(self.error.as_str());
        text
    }
}

/// The lines of `text`, each with the severity `level`.
pub open spec fn tagged(level: LogLevel, text: Seq<char>) -> Seq<(LogLevel, Seq<char>)> {
    Seq::new(lines(text).len(), |i: int| (level, lines(text)[i]))
}

/// The log records of a report: every line of the information as `Info`,
/// then every line of the warnings as `Warn`, then every line of the errors
/// as `Error`.
pub open spec fn log_records(report: Buffers) -> Seq<(LogLevel, Seq<char>)> {
    tagged(LogLevel::Info, report.info) + tagged(LogLevel::Warn, report.warning) + tagged(
        LogLevel::Error,
        report.error,
    )
}

/// The views of a list of records.
pub open spec fn record_views(records: Seq<(LogLevel, String)>) -> Seq<(LogLevel, Seq<char>)> {
    Seq::new(records.len(), |i: int| (records[i].0, records[i].1@))
}

fn tag_lines(records: &mut Vec<(LogLevel, String)>, level: LogLevel, text: &str)
    ensures
        record_views(final(records)@) == record_views(old(records)@) + tagged(level, text@),
{
    let found = split_lines(text);
    let ghost start = record_views(records@);
    let ghost all = tagged(level, text@);
    let mut i: usize = 0;
    assert(start + all.take(0) =~= start);
    while i < found.len()
        invariant
            i <= found.len(),
            found.deep_view() == lines(text@),
            all == tagged(level, text@),
            record_views(records@) == start + all.take(i as int),
        decreases found.len() - i,
    {
        let ghost before = record_views(records@);
        proof {
            assert(found.deep_view()[i as int] == found@[i as int]@);
            assert(all[i as int] == (level, found@[i as int]@));
        }
        records.push((level, found[i].clone()));
        proof {
            assert(record_views(records@) =~= before.push((level, found@[i as int]@)));
            assert(start + all.take(i + 1) =~= (start + all.take(i as int)).push(all[i as int]));
        }
        i += 1;
    }
    proof {
        assert(found.deep_view().len() == found@.len());
        assert(all.take(i as int) =~= all);
    }
}

impl AnalysisReport {
    /// The report as log records: each line of each buffer, with the
    /// severity of its buffer.
    pub fn log_records(&self) -> (records: Vec<(LogLevel, String)>)
        ensures
            record_views(records@) == log_records(self@),
    {
        let mut records: Vec<(LogLevel, String)> = Vec::new();
        assert(record_views(records@) =~= Seq::<(LogLevel, Seq<char>)>::empty());
        tag_lines(&mut records, LogLevel::Info, self.info.as_str());
        tag_lines(&mut records, LogLevel::Warn, self.warning.as_str());
        tag_lines(&mut records, LogLevel::Error, self.error.as_str());
        assert(record_views(records@) =~= log_records(self@));
        records
    }
}

/// `followed_by` has `empty` as its unit and is associative.
pub proof fn lemma_followed_by(a: Buffers, b: Buffers, c: Buffers)
    ensures
        a.followed_by(Buffers::empty()) == a,
        Buffers::empty().followed_by(a) == a,
        a.followed_by(b).followed_by(c) == a.followed_by(b.followed_by(c)),
{
    assert(a.followed_by(Buffers::empty()).info =~= a.info);
    assert(a.followed_by(Buffers::empty()).warning =~= a.warning);
    assert(a.followed_by(Buffers::empty()).error =~= a.error);
    assert(Buffers::empty().followed_by(a).info =~= a.info);
    assert(Buffers::empty().followed_by(a).warning =~= a.warning);
    assert(Buffers::empty().followed_by(a).error =~= a.error);
    assert(a.followed_by(b).followed_by(c).info =~= a.followed_by(b.followed_by(c)).info);
    assert(a.followed_by(b).followed_by(c).warning =~= a.followed_by(b.followed_by(c)).warning);
    assert(a.followed_by(b).followed_by(c).error =~= a.followed_by(b.followed_by(c)).error);
}

/// Whether the linter's output points at the file: it holds the marker
/// `--> ` followed by the file's path, either as it was given or from its
/// first `src/` on. A path without `src/` is never pointed at.
pub open spec fn names_file(stderr: Seq<char>, path: Seq<char>) -> bool {
    match path_from_src(path) {
        Some(relative) => has_substring(stderr, "--> "@ + relative) || has_substring(
            stderr,
            "--> "@ + path,
        ),
        None => false,
    }
}

fn holds_marker_for(stderr: &[char], path: &str) -> (found: bool)
    ensures
        found == has_substring(stderr@, "--> "@ + path@),
{
    let mut marker = String::from_str("--> ");
    marker.append(path);
    let needle = to_chars(marker.as_str());
    contains(stderr, needle.as_slice())
}

/// Whether the linter's output points at the file at `path`.
pub fn match_path(path: &str, std_err: &str) -> (found: bool)
    ensures
        found == names_file(std_err@, path@),
{
    match extract_path_from_src(path) {
        Some(relative) => {
            let output = to_chars(std_err);
            holds_marker_for(output.as_slice(), relative.as_str()) || holds_marker_for(
                output.as_slice(),
                path,
            )
        },
        None => false,
    }
}

/// A line that gives the place of a diagnostic: after its leading white
/// space it opens with `--> `.
pub open spec fn is_marker(line: Seq<char>) -> bool {
    starts_with(trim_start(line), "--> "@)
}

/// A marker line that names `path`.
pub open spec fn marks(line: Seq<char>, path: Seq<char>) -> bool {
    is_marker(line) && has_substring(line, path)
}

/// The state of the search for the diagnostics of one file.
pub struct Scan {
    /// A marker line that names the file has been seen.
    pub collecting: bool,
    /// Where the excerpt starts.
    pub start: int,
    /// Where the excerpt ends.
    pub end: int,
    /// The offset of the line that comes next: the lengths of the lines so
    /// far, one more for each.
    pub offset: int,
    /// The marker line of another file has ended the excerpt.
    pub closed: bool,
}

/// The state before the first line.
pub open spec fn scan_start() -> Scan {
    Scan { collecting: false, start: 0, end: 0, offset: 0, closed: false }
}

/// The state after `line`. A marker line that names the file starts the
/// excerpt at the line's offset. Once the excerpt has started, a marker line
/// that names another file closes it at that line's offset; any other line
/// moves the end to one past the line's offset.
pub open spec fn scan_line(state: Scan, line: Seq<char>, path: Seq<char>) -> Scan {
    if state.closed {
        state
    } else if is_marker(line) && !has_substring(line, path) && state.collecting {
        Scan { end: state.offset, closed: true, ..state }
    } else {
        let collecting = state.collecting || marks(line, path);
        Scan {
            collecting,
            start: if marks(line, path) {
                state.offset
            } else {
                state.start
            },
            end: if collecting {
                state.offset + 1
            } else {
                state.end
            },
            offset: state.offset + line.len() + 1,
            closed: false,
        }
    }
}

/// The state after all of `lines`.
pub open spec fn scan(lines: Seq<Seq<char>>, path: Seq<char>) -> Scan
    decreases lines.len(),
{
    if lines.len() == 0 {
        scan_start()
    } else {
        scan_line(scan(lines.drop_last(), path), lines.last(), path)
    }
}

/// The part of the linter's output that belongs to the file at `path`: from
/// the last marker line that names the file before the excerpt is closed, up
/// to the marker line of another file, or else up to one character into the
/// last line. `None` where no marker line names the file.
pub open spec fn excerpt(stderr: Seq<char>, path: Seq<char>) -> Option<Seq<char>> {
    let state = scan(lines(stderr), path);
    if state.collecting {
        Some(stderr.subrange(state.start, state.end))
    } else {
        None
    }
}

/// Lines after the excerpt is closed change nothing.
pub proof fn lemma_scan_closed(seen: Seq<Seq<char>>, rest: Seq<Seq<char>>, path: Seq<char>)
    requires
        scan(seen, path).closed,
    ensures
        scan(seen + rest, path) == scan(seen, path),
    decreases rest.len(),
{
    if rest.len() == 0 {
        assert(seen + rest =~= seen);
    } else {
        lemma_scan_closed(seen, rest.drop_last(), path);
        assert((seen + rest).drop_last() =~= seen + rest.drop_last());
        assert((seen + rest).last() == rest.last());
    }
}

/// An excerpt is found exactly where some marker line names the file.
pub proof fn lemma_scan_collects(all: Seq<Seq<char>>, path: Seq<char>)
    ensures
        scan(all, path).collecting <==> exists|k: int|
            0 <= k < all.len() && marks(#[trigger] all[k], path),
        scan(all, path).closed ==> scan(all, path).collecting,
    decreases all.len(),
{
    if all.len() > 0 {
        let front = all.drop_last();
        lemma_scan_collects(front, path);
        if scan(all, path).collecting {
            if scan(front, path).collecting {
                let k = choose|k: int| 0 <= k < front.len() && marks(#[trigger] front[k], path);
                assert(all[k] == front[k]);
            } else {
                assert(marks(all[all.len() - 1], path));
            }
        }
        if exists|k: int| 0 <= k < all.len() && marks(#[trigger] all[k], path) {
            let k = choose|k: int| 0 <= k < all.len() && marks(#[trigger] all[k], path);
            if k < front.len() {
                assert(front[k] == all[k]);
            } else {
                assert(all[k] == all.last());
            }
        }
    }
}

/// Cuts from the linter's output the diagnostics of the file at `path`.
pub fn extract_clippy_error_for_path<'a>(stderr: &'a str, path: &str) -> (found: Option<&'a str>)
    ensures
        match excerpt(stderr@, path@) {
            Some(expected) => found matches Some(part) && part@ == expected,
            None => found is None,
        },
        found is Some <==> exists|k: int|
            0 <= k < lines(stderr@).len() && marks(#[trigger] lines(stderr@)[k], path@),
{
    let text = to_chars(stderr);
    let wanted = to_chars(path);
    let arrow = to_chars("--> ");
    let total: usize = text.len();
    let mut collecting: bool = false;
    let mut closed: bool = false;
    let mut start: usize = 0;
    let mut end: usize = 0;
    let mut offset: usize = 0;
    let mut from: usize = 0;
    let ghost mut seen: Seq<Seq<char>> = Seq::empty();
    assert(lines(stderr@) =~= seen + lines_from(stderr@, 0));
    while from < total && !closed
        invariant
            text@ == stderr@,
            wanted@ == path@,
            arrow@ == "--> "@,
            total == text@.len(),
            from <= total,
            lines(stderr@) == seen + lines_from(stderr@, from as int),
            scan(seen, path@).collecting == collecting,
            scan(seen, path@).closed == closed,
            scan(seen, path@).start == start,
            scan(seen, path@).end == end,
            from < total && !closed ==> scan(seen, path@).offset == offset,
            from < total ==> offset <= from,
            collecting ==> start <= end <= total,
            collecting ==> start < end,
        decreases total - from,
    {
        let bounds = line_at(text.as_slice(), from);
        let content_end: usize = bounds.0;
        let feed: usize = bounds.1;
        let line = slice_subrange(text.as_slice(), from, content_end);
        let marker = trimmed_starts_with(line, arrow.as_slice());
        let named = contains(line, wanted.as_slice());
        let ghost before = scan(seen, path@);
        proof {
            lemma_next_newline_bounds(stderr@, from as int);
            assert(lines_from(stderr@, from as int) =~= seq![line@] + lines_from(
                stderr@,
                feed + 1,
            ));
            assert((seen.push(line@)).drop_last() =~= seen);
            assert(seen + lines_from(stderr@, from as int) =~= seen.push(line@) + lines_from(
                stderr@,
                feed + 1,
            ));
            seen = seen.push(line@);
        }
        if marker && !named && collecting {
            end = offset;
            closed = true;
        } else {
            if marker && named {
                collecting = true;
                start = offset;
            }
            if collecting {
                end = offset + 1;
            }
            if feed < total {
                offset = offset + (content_end - from) + 1;
            }
        }
        if feed < total {
            from = feed + 1;
        } else {
            from = total;
            proof {
                assert(lines_from(stderr@, feed + 1) =~= lines_from(stderr@, total as int));
            }
        }
    }
    proof {
        let rest = lines_from(stderr@, from as int);
        if closed {
            lemma_scan_closed(seen, rest, path@);
        } else {
            assert(rest =~= Seq::<Seq<char>>::empty());
            assert(seen + rest =~= seen);
        }
        lemma_scan_collects(lines(stderr@), path@);
    }
    if collecting {
        Some(stderr.substring_char(start, end))
    } else {
        None
    }
}

/// What of the linter's output goes to the log: where the linter failed and
/// its output points at the file, the diagnostics of the file, which are
/// empty where no marker line names it; nothing otherwise.
pub open spec fn logged_excerpt(path: Seq<char>, run: ToolRun) -> Option<Seq<char>> {
    match run {
        ToolRun::Failed(why) => None,
        ToolRun::Finished { success, stderr } => if !success && names_file(stderr@, path) {
            let relative = match path_from_src(path) {
                Some(relative) => relative,
                None => Seq::empty(),
            };
            match excerpt(stderr@, relative) {
                Some(part) => Some(part),
                None => Some(Seq::empty()),
            }
        } else {
            None
        },
    }
}

/// The part of the linter's output to write to the log for the file at
/// `path`.
pub fn linter_excerpt<'a>(path: &str, run: &'a ToolRun) -> (found: Option<&'a str>)
    ensures
        match logged_excerpt(path@, *run) {
            Some(expected) => found matches Some(part) && part@ == expected,
            None => found is None,
        },
{
    match run {
        ToolRun::Failed(why) => None,
        ToolRun::Finished { success, stderr } => {
            if !*success && match_path(path, stderr.as_str()) {
                let relative: String = match extract_path_from_src(path) {
                    Some(relative) => relative,
                    None => String::new(),
                };
                proof {
                    reveal_strlit("");
                    assert(""@ =~= Seq::<char>::empty());
                }
                match extract_clippy_error_for_path(stderr.as_str(), relative.as_str()) {
                    Some(part) => Some(part),
                    None => Some(""),
                }
            } else {
                None
            }
        },
    }
}

/// What is said of one function: a line where it is too complex, and a line
/// where it is too long.
pub open spec fn function_warnings(
    level: GrumpinessLevel,
    func: FunctionItem,
    max_function_size: u8,
    max_cyclomatic_complexity: u8,
) -> Seq<char> {
    (if func.cyclomatic_complexity() > max_cyclomatic_complexity {
        complexity::warning_text(
            level,
            func.name@,
            func.cyclomatic_complexity(),
            max_cyclomatic_complexity as nat,
        ) + "\n"@
    } else {
        Seq::empty()
    }) + (if func.statements().len() > max_function_size {
        function_size::warning_text(
            level,
            func.name@,
            func.statements().len(),
            max_function_size as nat,
        ) + "\n"@
    } else {
        Seq::empty()
    })
}

/// What is said of the functions of a file, in their order.
pub open spec fn file_warnings(
    level: GrumpinessLevel,
    funcs: Seq<FunctionItem>,
    max_function_size: u8,
    max_cyclomatic_complexity: u8,
) -> Seq<char>
    decreases funcs.len(),
{
    if funcs.len() == 0 {
        Seq::empty()
    } else {
        file_warnings(level, funcs.drop_last(), max_function_size, max_cyclomatic_complexity)
            + function_warnings(
            level,
            funcs.last(),
            max_function_size,
            max_cyclomatic_complexity,
        )
    }
}

/// Holds the functions of a file against the two limits. The answer holds
/// one line for each limit that a function is above, in the order of the
/// functions, and says whether there is none.
pub fn analyze_file_complexity(
    syntax: &SourceFile,
    grumpiness_level: &GrumpinessLevel,
    max_function_size: &u8,
    max_cyclomatic_complexity: &u8,
) -> (answer: (bool, String))
    ensures
        answer.1@ == file_warnings(
            *grumpiness_level,
            functions_of(syntax.items@),
            *max_function_size,
            *max_cyclomatic_complexity,
        ),
        answer.0 == (answer.1@.len() == 0),
{
    let metrics = analyze_file(syntax);
    let ghost funcs = functions_of(syntax.items@);
    let mut successful: bool = true;
    let mut messages = String::new();
    let mut i: usize = 0;
    while i < metrics.len()
        invariant
            i <= metrics.len(),
            metrics@.len() == funcs.len(),
            forall|k: int| 0 <= k < metrics@.len() ==> (#[trigger] metrics@[k]).describes(funcs[k]),
            messages@ == file_warnings(
                *grumpiness_level,
                funcs.take(i as int),
                *max_function_size,
                *max_cyclomatic_complexity,
            ),
            successful == (messages@.len() == 0),
        decreases metrics.len() - i,
    {
        let m = &metrics[i];
        let ghost before = messages@;
        proof {
            assert(funcs.take(i + 1).drop_last() =~= funcs.take(i as int));
            assert(funcs.take(i + 1).last() == funcs[i as int]);
            assert(m.describes(funcs[i as int]));
        }
        if m.cyclomatic_complexity > *max_cyclomatic_complexity as usize {
            let line = complexity::warning(
                grumpiness_level,
                m.name.as_str(),
                m.cyclomatic_complexity,
                *max_cyclomatic_complexity,
            );
            messages.append(line.as_str());
            messages.append("\n");
            successful = false;
            proof {
                reveal_strlit("\n");
            }
        }
        if m.lines_of_code > *max_function_size as usize {
            let line = function_size::warning(
                grumpiness_level,
                m.name.as_str(),
                m.lines_of_code,
                *max_function_size,
            );
            messages.append(line.as_str());
            messages.append("\n");
            successful = false;
            proof {
                reveal_strlit("\n");
            }
        }
        proof {
            assert(messages@ =~= before + function_warnings(
                *grumpiness_level,
                funcs[i as int],
                *max_function_size,
                *max_cyclomatic_complexity,
            ));
        }
        i += 1;
    }
    assert(funcs.take(i as int) =~= funcs);
    (successful, messages)
}

/// The violation reports, a line feed after each.
pub open spec fn all_lines(texts: Seq<Seq<char>>) -> Seq<char>
    decreases texts.len(),
{
    if texts.len() == 0 {
        Seq::empty()
    } else {
        all_lines(texts.drop_last()) + texts.last() + "\n"@
    }
}

/// What the rule file at `rules_path` gives for the source `code`: the
/// reports of the rules that are broken, or why the rules could not be
/// applied.
pub open spec fn rules_outcome(code: Seq<char>, rules_path: Seq<char>, rules: RuleFile) -> Result<
    Seq<Seq<char>>,
    Seq<char>,
> {
    match rules {
        RuleFile::Missing => Ok(Seq::empty()),
        RuleFile::Unreadable(why) => Err(
            "Failed to load custom rules: "@ + unreadable_text(rules_path, why@),
        ),
        RuleFile::Malformed(why) => Err(
            "Failed to load custom rules: "@ + malformed_text(rules_path, why@),
        ),
        RuleFile::Parsed(list) => match evaluation(list@, code, lowercase(code)) {
            Ok(found) => Ok(reports(found)),
            Err(why) => Err(why),
        },
    }
}

/// Applies the rules of the rule file to a source. A missing rule file means
/// that there is nothing to find.
pub fn analyze_file_with_custom_rules(code: &str, custom_rules_path: &str, rules: RuleFile) -> (answer:
    Result<(bool, Vec<String>), String>)
    ensures
        match rules_outcome(code@, custom_rules_path@, rules) {
            Ok(expected) => answer matches Ok(found) && found.0 == (expected.len() == 0)
                && found.1.deep_view() == expected,
            Err(expected) => answer matches Err(why) && why@ == expected,
        },
{
    match load_custom_rules_from_toml(custom_rules_path, rules) {
        Ok(Some(list)) => apply_rules(list, code),
        Ok(None) => Ok((true, Vec::new())),
        Err(why) => {
            let mut message = String::from_str("Failed to load custom rules: ");
            message.append(why.as_str());
            Err(message)
        },
    }
}

/// The line that opens the report: it names the file from its first `src/`
/// on, between quotes, and names nothing where the path holds no `src/`.
pub open spec fn opening(path: Seq<char>) -> Buffers {
    Buffers::info_line(
        "Detected changes in '"@ + debug_quoted(
            match path_from_src(path) {
                Some(relative) => relative,
                None => Seq::empty(),
            },
        ) + "'"@,
    )
}

/// What the formatter's run adds: a line of information where it
/// succeeded, an error with the reason where it failed or could not be run.
pub open spec fn formatter_step(run: ToolRun) -> Buffers {
    match run {
        ToolRun::Failed(why) => Buffers::error_line("❌ Failed to run 'cargo fmt': "@ + why@),
        ToolRun::Finished { success, stderr } => if success {
            Buffers::info_line("✅ cargo fmt successful!"@)
        } else {
            Buffers::error_line("❌ Failed to run 'cargo fmt': "@ + stderr@)
        },
    }
}

/// What the linter's run adds: a line of information where it succeeded, a
/// warning where it failed and its output points at the file, nothing
/// where it failed over other files, and an error where it could not be
/// run.
pub open spec fn linter_step(level: GrumpinessLevel, path: Seq<char>, run: ToolRun) -> Buffers {
    match run {
        ToolRun::Failed(why) => Buffers::error_line("❌ Failed to run 'clippy': "@ + why@),
        ToolRun::Finished { success, stderr } => if success {
            Buffers::info_line(clippy::success_text(level))
        } else if names_file(stderr@, path) {
            Buffers::warning_line(clippy::failure_text(level))
        } else {
            Buffers::empty()
        },
    }
}

/// What the metrics add: the warnings of the functions, or an error where
/// the file could not be read or parsed.
pub open spec fn complexity_step(
    level: GrumpinessLevel,
    syntax: Result<SourceFile, String>,
    max_function_size: u8,
    max_cyclomatic_complexity: u8,
) -> Buffers {
    match syntax {
        Ok(file) => Buffers::warnings(
            file_warnings(
                level,
                functions_of(file.items@),
                max_function_size,
                max_cyclomatic_complexity,
            ),
        ),
        Err(why) => Buffers::error_line("❌ Failed to analyse file: "@ + why@),
    }
}

/// What the text rules add: a warning for each rule that is broken, or an
/// error where the file or the rules could not be read or a rule is
/// unknown.
pub open spec fn rules_step(code: Result<String, String>, rules_path: Seq<char>, rules: RuleFile)
    -> Buffers {
    match code {
        Err(why) => Buffers::error_line("❌ Failed to analyse file with custom rules: "@ + why@),
        Ok(text) => match rules_outcome(text@, rules_path, rules) {
            Ok(found) => Buffers::warnings(all_lines(found)),
            Err(why) => Buffers::error_line(
                "❌ Failed to analyse file with custom rules: "@ + why,
            ),
        },
    }
}

/// What the staleness lookup adds: an error where the repository cannot be
/// found or opened or the lookup failed, a line of information where the
/// file is stale.
pub open spec fn staleness_step(level: GrumpinessLevel, path: Seq<char>, history: History)
    -> Buffers {
    match repository_part(path) {
        None => Buffers::error_line(
            "❌ Failed to create GitInspector: "@ + "Invalid repository path"@,
        ),
        Some(_) => match history {
            History::Unavailable(why) => Buffers::error_line(
                "❌ Failed to create GitInspector: "@ + why@,
            ),
            History::Found { commit_times, authors, now } => match commit_times {
                Ok(times) => if stale_at(
                    latest_time(times@),
                    now as int,
                    STALE_AFTER_DAYS as int,
                ) {
                    Buffers::info_line(git_is_stale::info_text(level))
                } else {
                    Buffers::empty()
                },
                Err(why) => Buffers::error_line(
                    "❌ Failed to check if file is stale: "@ + why@,
                ),
            },
        },
    }
}

/// What the authorship lookup adds: a line of information that names the
/// most frequent author, with an empty name where the file has no changes,
/// or an error where the lookup failed. Nothing where the repository cannot
/// be found or opened.
pub open spec fn authorship_step(level: GrumpinessLevel, path: Seq<char>, history: History)
    -> Buffers {
    match repository_part(path) {
        None => Buffers::empty(),
        Some(_) => match history {
            History::Unavailable(why) => Buffers::empty(),
            History::Found { commit_times, authors, now } => match authors {
                Ok(list) => Buffers::info_line(
                    git_most_frequent_author::info_text(
                        level,
                        match most_frequent(counted_names(list@)) {
                            Some(name) => name,
                            None => Seq::empty(),
                        },
                    ),
                ),
                Err(why) => Buffers::error_line(
                    "❌ Failed to get most frequent author: "@ + why@,
                ),
            },
        },
    }
}

/// The report on a changed file: the opening line, and after it what each
/// step adds, in the order formatter, linter, metrics, text rules,
/// staleness, authorship.
pub open spec fn report_on(
    path: Seq<char>,
    level: GrumpinessLevel,
    max_function_size: u8,
    max_cyclomatic_complexity: u8,
    rules_path: Seq<char>,
    evidence: Evidence,
) -> Buffers {
    opening(path).followed_by(formatter_step(evidence.formatter)).followed_by(
        linter_step(level, path, evidence.linter),
    ).followed_by(
        complexity_step(level, evidence.syntax, max_function_size, max_cyclomatic_complexity),
    ).followed_by(rules_step(evidence.code, rules_path, evidence.rules)).followed_by(
        staleness_step(level, path, evidence.history),
    ).followed_by(authorship_step(level, path, evidence.history))
}

/// Whether a function is above one of the two limits.
pub open spec fn above_a_limit(
    func: FunctionItem,
    max_function_size: u8,
    max_cyclomatic_complexity: u8,
) -> bool {
    func.cyclomatic_complexity() > max_cyclomatic_complexity || func.statements().len()
        > max_function_size
}

/// There are warnings about the functions of a file exactly where one of
/// them is above a limit, whatever the tone.
pub proof fn lemma_file_warnings_empty(
    level: GrumpinessLevel,
    funcs: Seq<FunctionItem>,
    max_function_size: u8,
    max_cyclomatic_complexity: u8,
)
    ensures
        file_warnings(level, funcs, max_function_size, max_cyclomatic_complexity).len() == 0
            <==> forall|i: int|
            0 <= i < funcs.len() ==> !above_a_limit(
                #[trigger] funcs[i],
                max_function_size,
                max_cyclomatic_complexity,
            ),
    decreases funcs.len(),
{
    reveal_strlit("\n");
    if funcs.len() > 0 {
        let front = funcs.drop_last();
        lemma_file_warnings_empty(level, front, max_function_size, max_cyclomatic_complexity);
        let all = file_warnings(level, funcs, max_function_size, max_cyclomatic_complexity);
        if all.len() == 0 {
            assert forall|i: int| 0 <= i < funcs.len() implies !above_a_limit(
                #[trigger] funcs[i],
                max_function_size,
                max_cyclomatic_complexity,
            ) by {
                if i < front.len() {
                    assert(front[i] == funcs[i]);
                } else {
                    assert(funcs[i] == funcs.last());
                }
            }
        } else {
            if file_warnings(level, front, max_function_size, max_cyclomatic_complexity).len()
                > 0 {
                let i = choose|i: int|
                    0 <= i < front.len() && above_a_limit(
                        #[trigger] front[i],
                        max_function_size,
                        max_cyclomatic_complexity,
                    );
                assert(funcs[i] == front[i]);
            } else {
                assert(above_a_limit(
                    funcs[funcs.len() - 1],
                    max_function_size,
                    max_cyclomatic_complexity,
                ));
            }
        }
    }
}

/// The tone selects the wording and nothing else: under any two tones the
/// errors of the report are the same, and there are warnings under the one
/// exactly where there are warnings under the other.
pub proof fn law_tone_changes_wording_only(
    path: Seq<char>,
    one: GrumpinessLevel,
    other: GrumpinessLevel,
    max_function_size: u8,
    max_cyclomatic_complexity: u8,
    rules_path: Seq<char>,
    evidence: Evidence,
)
    ensures
        report_on(
            path,
            one,
            max_function_size,
            max_cyclomatic_complexity,
            rules_path,
            evidence,
        ).error == report_on(
            path,
            other,
            max_function_size,
            max_cyclomatic_complexity,
            rules_path,
            evidence,
        ).error,
        report_on(
            path,
            one,
            max_function_size,
            max_cyclomatic_complexity,
            rules_path,
            evidence,
        ).warning.len() == 0 <==> report_on(
            path,
            other,
            max_function_size,
            max_cyclomatic_complexity,
            rules_path,
            evidence,
        ).warning.len() == 0,
{
    reveal_strlit("\n");
    match evidence.syntax {
        Ok(file) => {
            lemma_file_warnings_empty(
                one,
                functions_of(file.items@),
                max_function_size,
                max_cyclomatic_complexity,
            );
            lemma_file_warnings_empty(
                other,
                functions_of(file.items@),
                max_function_size,
                max_cyclomatic_complexity,
            );
        },
        Err(_) => {},
    }
}

fn note_formatter(report: &mut AnalysisReport, run: &ToolRun)
    ensures
        final(report)@ == old(report)@.followed_by(formatter_step(*run)),
{
    match run {
        ToolRun::Failed(why) => {
            report.add_error("❌ Failed to run 'cargo fmt': ", why.as_str());
        },
        ToolRun::Finished { success, stderr } => {
            if *success {
                report.add_info("✅ cargo fmt successful!");
            } else {
                report.add_error("❌ Failed to run 'cargo fmt': ", stderr.as_str());
            }
        },
    }
}

fn note_linter(report: &mut AnalysisReport, level: &GrumpinessLevel, path: &str, run: &ToolRun)
    ensures
        final(report)@ == old(report)@.followed_by(linter_step(*level, path@, *run)),
{
    match run {
        ToolRun::Failed(why) => {
            report.add_error("❌ Failed to run 'clippy': ", why.as_str());
        },
        ToolRun::Finished { success, stderr } => {
            if *success {
                report.add_info(clippy::success(level));
            } else {
                if match_path(path, stderr.as_str()) {
                    report.add_warning(clippy::failure(level));
                } else {
                    proof {
                        lemma_followed_by(report@, Buffers::empty(), Buffers::empty());
                    }
                }
            }
        },
    }
}

fn note_complexity(
    report: &mut AnalysisReport,
    level: &GrumpinessLevel,
    syntax: &Result<SourceFile, String>,
    max_function_size: &u8,
    max_cyclomatic_complexity: &u8,
)
    ensures
        final(report)@ == old(report)@.followed_by(
            complexity_step(*level, *syntax, *max_function_size, *max_cyclomatic_complexity),
        ),
{
    match syntax {
        Ok(file) => {
            let answer = analyze_file_complexity(
                file,
                level,
                max_function_size,
                max_cyclomatic_complexity,
            );
            report.add_warnings(answer.1.as_str());
        },
        Err(why) => {
            report.add_error("❌ Failed to analyse file: ", why.as_str());
        },
    }
}

fn note_rules(
    report: &mut AnalysisReport,
    code: &Result<String, String>,
    rules_path: &str,
    rules: RuleFile,
)
    ensures
        final(report)@ == old(report)@.followed_by(rules_step(*code, rules_path@, rules)),
{
    match code {
        Err(why) => {
            report.add_error("❌ Failed to analyse file with custom rules: ", why.as_str());
        },
        Ok(text) => match analyze_file_with_custom_rules(text.as_str(), rules_path, rules) {
            Ok(answer) => {
                let found = answer.1;
                let ghost expected = found.deep_view();
                let ghost start = report@;
                let mut i: usize = 0;
                proof {
                    lemma_followed_by(report@, Buffers::empty(), Buffers::empty());
                    assert(Buffers::warnings(all_lines(expected.take(0))) == Buffers::empty());
                }
                while i < found.len()
                    invariant
                        i <= found.len(),
                        expected == found.deep_view(),
                        report@ == start.followed_by(
                            Buffers::warnings(all_lines(expected.take(i as int))),
                        ),
                    decreases found.len() - i,
                {
                    let ghost before = report@;
                    report.add_warning(found[i].as_str());
                    proof {
                        assert(expected.take(i + 1).drop_last() =~= expected.take(i as int));
                        assert(expected.take(i + 1).last() == found@[i as int]@);
                        let sofar = all_lines(expected.take(i as int));
                        let grown = all_lines(expected.take(i + 1));
                        assert(grown =~= sofar + (found@[i as int]@ + "\n"@));
                        assert(report@.warning =~= start.warning + grown);
                        assert(report@.info =~= start.info + Seq::<char>::empty());
                        assert(report@.error =~= start.error + Seq::<char>::empty());
                    }
                    i += 1;
                }
                assert(expected.take(i as int) =~= expected);
            },
            Err(why) => {
                report.add_error("❌ Failed to analyse file with custom rules: ", why.as_str());
            },
        },
    }
}

fn note_history(
    report: &mut AnalysisReport,
    level: &GrumpinessLevel,
    path: &str,
    history: &History,
)
    ensures
        final(report)@ == old(report)@.followed_by(staleness_step(*level, path@, *history)).followed_by(
            authorship_step(*level, path@, *history),
        ),
{
    match GitInspector::new(path) {
        Err(why) => {
            report.add_error("❌ Failed to create GitInspector: ", why.as_str());
            proof {
                lemma_followed_by(report@, Buffers::empty(), Buffers::empty());
            }
        },
        Ok(inspector) => match history {
            History::Unavailable(why) => {
                report.add_error("❌ Failed to create GitInspector: ", why.as_str());
                proof {
                    lemma_followed_by(report@, Buffers::empty(), Buffers::empty());
                }
            },
            History::Found { commit_times, authors, now } => {
                match commit_times {
                    Ok(times) => {
                        if inspector.is_file_stale(times, *now, STALE_AFTER_DAYS) {
                            let line = git_is_stale::info(level);
                            report.add_info(line.as_str());
                        } else {
                            proof {
                                lemma_followed_by(report@, Buffers::empty(), Buffers::empty());
                            }
                        }
                    },
                    Err(why) => {
                        report.add_error("❌ Failed to check if file is stale: ", why.as_str());
                    },
                }
                match authors {
                    Ok(list) => {
                        let name: String = match inspector.most_frequent_author(list) {
                            Some(name) => name,
                            None => String::new(),
                        };
                        let line = git_most_frequent_author::info(level, name.as_str());
                        report.add_info(line.as_str());
                    },
                    Err(why) => {
                        report.add_error("❌ Failed to get most frequent author: ", why.as_str());
                    },
                }
            },
        },
    }
}

/// Puts the report on one changed file together. `path` is the file,
/// `custom_rules_path` the rule file, `evidence` what was gathered about
/// both. The steps come in a fixed order, and a step that failed adds an
/// error and stops no other step.
pub fn analyze_change(
    path: &str,
    grumpiness_level: &GrumpinessLevel,
    max_function_size: &u8,
    max_cyclomatic_complexity: &u8,
    custom_rules_path: &str,
    evidence: Evidence,
) -> (report: AnalysisReport)
    ensures
        report@ == report_on(
            path@,
            *grumpiness_level,
            *max_function_size,
            *max_cyclomatic_complexity,
            custom_rules_path@,
            evidence,
        ),
{
    let mut report = AnalysisReport::new();
    let relative: String = match extract_path_from_src(path) {
        Some(relative) => relative,
        None => String::new(),
    };
    let quoted = to_debug_quoted(relative.as_str());
    let mut opening_line = String::from_str("Detected changes in '");
    opening_line.append(quoted.as_str());
    opening_line.append("'");
    report.add_info(opening_line.as_str());
    proof {
        lemma_followed_by(opening(path@), Buffers::empty(), Buffers::empty());
    }
    note_formatter(&mut report, &evidence.formatter);
    note_linter(&mut report, grumpiness_level, path, &evidence.linter);
    note_complexity(
        &mut report,
        grumpiness_level,
        &evidence.syntax,
        max_function_size,
        max_cyclomatic_complexity,
    );
    let Evidence { formatter, linter, code, syntax, rules, history } = evidence;
    note_rules(&mut report, &code, custom_rules_path, rules);
    note_history(&mut report, grumpiness_level, path, &history);
    report
}

/// The report on one changed file as one text: information, then warnings,
/// then errors.
pub fn handle_file_changes(
    path: &str,
    grumpiness_level: &GrumpinessLevel,
    max_function_size: &u8,
    max_cyclomatic_complexity: &u8,
    custom_rules_path: &str,
    evidence: Evidence,
) -> (text: String)
    ensures
        text@ == report_on(
            path@,
            *grumpiness_level,
            *max_function_size,
            *max_cyclomatic_complexity,
            custom_rules_path@,
            evidence,
        ).text(),
{
    let report = analyze_change(
        path,
        grumpiness_level,
        max_function_size,
        max_cyclomatic_complexity,
        custom_rules_path,
        evidence,
    );
    report.render()
}

} // verus!
