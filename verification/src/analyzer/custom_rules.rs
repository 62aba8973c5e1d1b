//! Text rules: what a rule file asks of a source text, and which rules the
//! text breaks.

use crate::text::{
    contains, debug_quoted, has_substring, lowercase, same_text, to_chars, to_debug_quoted,
    to_lowercase,
};
use vstd::prelude::*;
use vstd::string::*;

verus! {

/// One rule of the rule file.
#[derive(Debug)]
pub struct RuleConfig {
    /// Selects the kind of rule: `no_todo_comments` or `forbid_word`.
    pub name: String,
    /// A rule that is not enabled is passed over.
    pub enabled: bool,
    /// A numeric bound; no rule reads it so far.
    pub threshold: Option<u32>,
    /// The word that `forbid_word` forbids.
    pub option: Option<String>,
}

/// A rule that the source breaks, and what was found.
#[derive(Debug)]
pub struct RuleViolation {
    pub rule: String,
    pub message: String,
}

impl View for RuleViolation {
    type V = (Seq<char>, Seq<char>);

    /// The rule's name and the message.
    open spec fn view(&self) -> (Seq<char>, Seq<char>) {
        (self.rule@, self.message@)
    }
}

/// What one rule gives for a source.
pub enum Verdict {
    /// The rule is not enabled.
    Skipped,
    /// The source keeps the rule.
    Passed,
    /// The source breaks the rule; the text says what was found.
    Violated(Seq<char>),
    /// No rule has this name.
    Unknown,
}

/// What `rule` gives for `source`, whose lower-case form is `lowered`.
pub open spec fn verdict(rule: RuleConfig, source: Seq<char>, lowered: Seq<char>) -> Verdict {
    if !rule.enabled {
        Verdict::Skipped
    } else if rule.name@ == "no_todo_comments"@ {
        if has_substring(lowered, "todo"@) {
            Verdict::Violated("TODO comments found!"@)
        } else {
            Verdict::Passed
        }
    } else if rule.name@ == "forbid_word"@ {
        match rule.option {
            Some(word) => if has_substring(source, word@) {
                Verdict::Violated("Use of forbidden word: "@ + word@)
            } else {
                Verdict::Passed
            },
            None => Verdict::Passed,
        }
    } else {
        Verdict::Unknown
    }
}

/// An enabled rule whose name names no rule.
pub open spec fn is_unknown(rule: RuleConfig) -> bool {
    rule.enabled && rule.name@ != "no_todo_comments"@ && rule.name@ != "forbid_word"@
}

/// The index of the first unknown rule at or after `from`.
pub open spec fn first_unknown_from(rules: Seq<RuleConfig>, from: int) -> Option<int>
    decreases rules.len() - from,
{
    if from < 0 || from >= rules.len() {
        None
    } else if is_unknown(rules[from]) {
        Some(from)
    } else {
        first_unknown_from(rules, from + 1)
    }
}

/// The index of the first unknown rule.
pub open spec fn first_unknown(rules: Seq<RuleConfig>) -> Option<int> {
    first_unknown_from(rules, 0)
}

/// The violations of `rules`, in the order of the rules: for each rule that
/// the source breaks, the rule's name and what was found.
pub open spec fn findings(rules: Seq<RuleConfig>, source: Seq<char>, lowered: Seq<char>) -> Seq<
    (Seq<char>, Seq<char>),
>
    decreases rules.len(),
{
    if rules.len() == 0 {
        Seq::empty()
    } else {
        match verdict(rules.last(), source, lowered) {
            Verdict::Violated(found) => findings(rules.drop_last(), source, lowered).push(
                (rules.last().name@, found),
            ),
            _ => findings(rules.drop_last(), source, lowered),
        }
    }
}

/// The message that reports an unknown rule.
pub open spec fn unknown_rule_text(name: Seq<char>) -> Seq<char> {
    "Unknown rule: "@ + name
}

/// What evaluating `rules` gives: the error of the first unknown rule, or
/// else the violations of all of them.
pub open spec fn evaluation(rules: Seq<RuleConfig>, source: Seq<char>, lowered: Seq<char>)
    -> Result<Seq<(Seq<char>, Seq<char>)>, Seq<char>> {
    match first_unknown(rules) {
        Some(at) => Err(unknown_rule_text(rules[at].name@)),
        None => Ok(findings(rules, source, lowered)),
    }
}

/// The views of a list of violations.
pub open spec fn views_of(found: Seq<RuleViolation>) -> Seq<(Seq<char>, Seq<char>)> {
    Seq::new(found.len(), |i: int| found[i]@)
}

/// The two lines that report a violation whose details, already quoted, are
/// `quoted`.
pub open spec fn framed(rule: Seq<char>, quoted: Seq<char>) -> Seq<char> {
    "Rule violation: "@ + rule + "\nmessage Some(Some("@ + quoted + "))"@
}

/// The two lines that report a violation.
pub open spec fn rendered(violation: (Seq<char>, Seq<char>)) -> Seq<char> {
    framed(violation.0, debug_quoted(violation.1))
}

/// The rule `no_todo_comments` on a text that is already in lower case: it
/// is broken where the text holds `todo`.
pub fn mentions_todo(lowered: &str) -> (found: bool)
    ensures
        found == has_substring(lowered@, "todo"@),
{
    let hay = to_chars(lowered);
    let needle = to_chars("todo");
    contains(hay.as_slice(), needle.as_slice())
}

/// The rule `no_todo_comments`: broken where the lower-case form of the
/// source holds `todo`.
pub fn no_todo_comments(source: &str) -> (found: bool)
    ensures
        found == has_substring(lowercase(source@), "todo"@),
{
    let lowered = to_lowercase(source);
    mentions_todo(lowered.as_str())
}

/// The rule `forbid_word`: broken where the source holds the word, letter
/// for letter.
pub fn contains_forbidden_word(source: &str, word: &str) -> (found: bool)
    ensures
        found == has_substring(source@, word@),
{
    let hay = to_chars(source);
    let needle = to_chars(word);
    contains(hay.as_slice(), needle.as_slice())
}

/// Frames the two lines that report a violation, from the rule's name and
/// the details as they are already quoted.
pub fn frame_message(rule: &str, quoted: &str) -> (message: String)
    ensures
        message@ == framed(rule@, quoted@),
{
    let mut message = String::from_str("Rule violation: ");
    message.append(rule);
    message.append("\nmessage Some(Some(");
    message.append(quoted);
    message.append("))");
    message
}

/// The two lines that report a violation: the rule's name, then the
/// details. Without details the second line says so.
pub fn generate_message(rule: String, message: Option<String>) -> (text: String)
    ensures
        text@ == match message {
            Some(details) => framed(rule@, debug_quoted(details@)),
            None => "Rule violation: "@ + rule@ + "\nmessage Some(None)"@,
        },
{
    match message {
        Some(details) => {
            let quoted = to_debug_quoted(details.as_str());
            frame_message(rule.as_str(), quoted.as_str())
        },
        None => {
            let mut text = String::from_str("Rule violation: ");
            text.append(rule.as_str());
            text.append("\nmessage Some(None)");
            text
        },
    }
}

/// Evaluates the rules in order against `source`, whose lower-case form is
/// `lowered`. The first enabled rule whose name names no rule ends the
/// evaluation with an error; no later rule is looked at. Otherwise the
/// violations come back in the order of the rules.
pub fn check_rules(rules: &Vec<RuleConfig>, source: &str, lowered: &str) -> (checked: Result<
    Vec<RuleViolation>,
    String,
>)
    ensures
        match evaluation(rules@, source@, lowered@) {
            Ok(expected) => checked matches Ok(found) && views_of(found@) == expected,
            Err(expected) => checked matches Err(message) && message@ == expected,
        },
{
    let text = to_chars(source);
    let todo_found = mentions_todo(lowered);
    let mut found: Vec<RuleViolation> = Vec::new();
    let mut i: usize = 0;
    while i < rules.len()
        invariant
            i <= rules.len(),
            text@ == source@,
            todo_found == has_substring(lowered@, "todo"@),
            first_unknown(rules@) == first_unknown_from(rules@, i as int),
            views_of(found@) == findings(rules@.take(i as int), source@, lowered@),
        decreases rules.len() - i,
    {
        let rule = &rules[i];
        proof {
            assert(rules@.take(i + 1).drop_last() =~= rules@.take(i as int));
            assert(rules@.take(i + 1).last() == rules@[i as int]);
        }
        let ghost before = found@;
        if rule.enabled {
            if same_text(rule.name.as_str(), "no_todo_comments") {
                if todo_found {
                    found.push(
                        RuleViolation {
                            rule: rule.name.clone(),
                            message: String::from_str("TODO comments found!"),
                        },
                    );
                }
            } else if same_text(rule.name.as_str(), "forbid_word") {
                match &rule.option {
                    Some(word) => {
                        let needle = to_chars(word.as_str());
                        if contains(text.as_slice(), needle.as_slice()) {
                            let mut message = String::from_str("Use of forbidden word: ");
                            message.append(word.as_str());
                            found.push(RuleViolation { rule: rule.name.clone(), message });
                        }
                    },
                    None => {},
                }
            } else {
                let mut message = String::from_str("Unknown rule: ");
                message.append(rule.name.as_str());
                return Err(message);
            }
        }
        proof {
            let expected = findings(rules@.take(i + 1), source@, lowered@);
            assert(views_of(found@) =~= expected);
        }
        i += 1;
    }
    assert(rules@.take(i as int) =~= rules@);
    Ok(found)
}

/// Where the first unknown rule stands at `at`, the scan from any index up to
/// `at` finds it.
pub proof fn lemma_first_unknown(rules: Seq<RuleConfig>, from: int, at: int)
    requires
        0 <= from <= at < rules.len(),
        is_unknown(rules[at]),
        forall|j: int| 0 <= j < at ==> !is_unknown(#[trigger] rules[j]),
    ensures
        first_unknown_from(rules, from) == Some(at),
    decreases at - from,
{
    if from < at {
        lemma_first_unknown(rules, from + 1, at);
    }
}

/// An enabled rule with an unknown name makes the evaluation fail, and
/// nothing that follows the first such rule is looked at: two lists of rules
/// that agree up to and including it give the same error, whatever the
/// source.
pub proof fn law_unknown_rule_stops_evaluation(
    rules: Seq<RuleConfig>,
    other: Seq<RuleConfig>,
    at: int,
    source: Seq<char>,
    lowered: Seq<char>,
)
    requires
        0 <= at < rules.len(),
        is_unknown(rules[at]),
        forall|j: int| 0 <= j < at ==> !is_unknown(#[trigger] rules[j]),
        at < other.len(),
        other.take(at + 1) == rules.take(at + 1),
    ensures
        evaluation(rules, source, lowered) == Err::<Seq<(Seq<char>, Seq<char>)>, Seq<char>>(
            unknown_rule_text(rules[at].name@),
        ),
        evaluation(other, source, lowered) == evaluation(rules, source, lowered),
{
    lemma_first_unknown(rules, 0, at);
    assert forall|j: int| 0 <= j <= at implies other[j] == rules[j] by {
        assert(other.take(at + 1)[j] == other[j]);
        assert(rules.take(at + 1)[j] == rules[j]);
    }
    lemma_first_unknown(other, 0, at);
}

/// What the scan for the first unknown rule finds: the rule at the index
/// that it gives is unknown and no rule before it is; where it gives no
/// index, no rule is unknown.
pub proof fn lemma_first_unknown_found(rules: Seq<RuleConfig>, from: int)
    requires
        0 <= from,
    ensures
        match first_unknown_from(rules, from) {
            Some(at) => from <= at < rules.len() && is_unknown(rules[at]) && forall|j: int|
                from <= j < at ==> !is_unknown(#[trigger] rules[j]),
            None => forall|j: int| from <= j < rules.len() ==> !is_unknown(#[trigger] rules[j]),
        },
    decreases rules.len() - from,
{
    if from < rules.len() && !is_unknown(rules[from]) {
        lemma_first_unknown_found(rules, from + 1);
    }
}

/// Where no rule from `from` on is unknown, the scan finds none.
pub proof fn lemma_no_unknown(rules: Seq<RuleConfig>, from: int)
    requires
        0 <= from,
        forall|j: int| from <= j < rules.len() ==> !is_unknown(#[trigger] rules[j]),
    ensures
        first_unknown_from(rules, from) is None,
    decreases rules.len() - from,
{
    if from < rules.len() {
        lemma_no_unknown(rules, from + 1);
    }
}

/// A rule that is not enabled adds no violation.
pub proof fn lemma_findings_without(
    rules: Seq<RuleConfig>,
    at: int,
    source: Seq<char>,
    lowered: Seq<char>,
)
    requires
        0 <= at < rules.len(),
        !rules[at].enabled,
    ensures
        findings(rules.remove(at), source, lowered) == findings(rules, source, lowered),
    decreases rules.len(),
{
    if at == rules.len() - 1 {
        assert(rules.remove(at) =~= rules.drop_last());
    } else {
        lemma_findings_without(rules.drop_last(), at, source, lowered);
        assert(rules.remove(at).drop_last() =~= rules.drop_last().remove(at));
        assert(rules.remove(at).last() == rules.last());
    }
}

/// A rule that is not enabled is passed over entirely: with or without it
/// the evaluation gives the same, whatever the rule's name and whatever the
/// source.
pub proof fn law_disabled_rule_changes_nothing(
    rules: Seq<RuleConfig>,
    at: int,
    source: Seq<char>,
    lowered: Seq<char>,
)
    requires
        0 <= at < rules.len(),
        !rules[at].enabled,
    ensures
        evaluation(rules.remove(at), source, lowered) == evaluation(rules, source, lowered),
{
    let fewer = rules.remove(at);
    lemma_first_unknown_found(rules, 0);
    lemma_findings_without(rules, at, source, lowered);
    match first_unknown(rules) {
        Some(first) => {
            let moved = if first < at {
                first
            } else {
                first - 1
            };
            assert(fewer[moved] == rules[first]);
            assert forall|j: int| 0 <= j < moved implies !is_unknown(#[trigger] fewer[j]) by {
                if j < at {
                    assert(fewer[j] == rules[j]);
                } else {
                    assert(fewer[j] == rules[j + 1]);
                }
            }
            lemma_first_unknown(fewer, 0, moved);
        },
        None => {
            assert forall|j: int| 0 <= j < fewer.len() implies !is_unknown(#[trigger] fewer[j]) by {
                if j < at {
                    assert(fewer[j] == rules[j]);
                } else {
                    assert(fewer[j] == rules[j + 1]);
                }
            }
            lemma_no_unknown(fewer, 0);
        },
    }
}

/// The reports of a list of violations.
pub open spec fn reports(found: Seq<(Seq<char>, Seq<char>)>) -> Seq<Seq<char>> {
    Seq::new(found.len(), |i: int| rendered(found[i]))
}

/// Applies the rules to a source. An enabled rule with an unknown name ends
/// the evaluation with an error. Otherwise the answer says whether every
/// rule is kept, and holds one report for each rule that is broken, in the
/// order of the rules.
pub fn apply_rules(rules: Vec<RuleConfig>, source: &str) -> (applied: Result<
    (bool, Vec<String>),
    String,
>)
    ensures
        match evaluation(rules@, source@, lowercase(source@)) {
            Ok(expected) => applied matches Ok(answer) && answer.0 == (expected.len() == 0)
                && answer.1.deep_view() == reports(expected),
            Err(expected) => applied matches Err(message) && message@ == expected,
        },
{
    let lowered = to_lowercase(source);
    match check_rules(&rules, source, lowered.as_str()) {
        Ok(found) => {
            let mut messages: Vec<String> = Vec::new();
            let mut i: usize = 0;
            while i < found.len()
                invariant
                    i <= found.len(),
                    messages@.len() == i,
                    forall|k: int|
                        0 <= k < i ==> (#[trigger] messages@[k])@ == rendered(found@[k]@),
                decreases found.len() - i,
            {
                let quoted = to_debug_quoted(found[i].message.as_str());
                messages.push(frame_message(found[i].rule.as_str(), quoted.as_str()));
                i += 1;
            }
            proof {
                let expected = views_of(found@);
                assert(messages.deep_view() =~= reports(expected));
            }
            Ok((found.len() == 0, messages))
        },
        Err(message) => Err(message),
    }
}

/// What was found at the path of the rule file.
#[derive(Debug)]
pub enum RuleFile {
    /// Nothing is there.
    Missing,
    /// Something is there and could not be read; the text says why.
    Unreadable(String),
    /// The file was read and is not a well-formed list of rules; the text
    /// says why.
    Malformed(String),
    /// The rules of the file.
    Parsed(Vec<RuleConfig>),
}

/// The error for a rule file that could not be read.
pub open spec fn unreadable_text(path: Seq<char>, reason: Seq<char>) -> Seq<char> {
    "Failed to read ruleset file '"@ + path + "': "@ + reason
}

/// The error for a rule file that is not well formed.
pub open spec fn malformed_text(path: Seq<char>, reason: Seq<char>) -> Seq<char> {
    "Invalid ruleset file '"@ + path + "': "@ + reason
}

/// The rules to apply, from what was found at `path`. A missing file is no
/// error: there are no rules then. A file that cannot be read or is not well
/// formed is an error.
pub fn load_custom_rules_from_toml(path: &str, file: RuleFile) -> (loaded: Result<
    Option<Vec<RuleConfig>>,
    String,
>)
    ensures
        match file {
            RuleFile::Missing => loaded matches Ok(None),
            RuleFile::Unreadable(reason) => loaded matches Err(message) && message@
                == unreadable_text(path@, reason@),
            RuleFile::Malformed(reason) => loaded matches Err(message) && message@
                == malformed_text(path@, reason@),
            RuleFile::Parsed(rules) => loaded == Ok::<Option<Vec<RuleConfig>>, String>(
                Some(rules),
            ),
        },
{
    match file {
        RuleFile::Missing => Ok(None),
        RuleFile::Unreadable(reason) => {
            let mut message = String::from_str("Failed to read ruleset file '");
            message.append(path);
            message.append("': ");
            message.append(reason.as_str());
            Err(message)
        },
        RuleFile::Malformed(reason) => {
            let mut message = String::from_str("Invalid ruleset file '");
            message.append(path);
            message.append("': ");
            message.append(reason.as_str());
            Err(message)
        },
        RuleFile::Parsed(rules) => Ok(Some(rules)),
    }
}

} // verus!
