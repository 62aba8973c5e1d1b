//! Text primitives over sequences of characters.
//!
//! Strings are viewed as `Seq<char>`. Searching and line splitting are written
//! here once, with their meaning stated as spec functions, and are shared by
//! the rule engine, the report builder and the watcher.

use vstd::prelude::*;
use vstd::slice::*;
use vstd::string::*;

verus! {

/// `needle` stands in `hay` at index `at`.
pub open spec fn occurs_at(hay: Seq<char>, needle: Seq<char>, at: int) -> bool {
    &&& 0 <= at
    &&& at + needle.len() <= hay.len()
    &&& hay.subrange(at, at + needle.len()) == needle
}

/// `needle` stands somewhere in `hay`. The empty needle stands in every text.
pub open spec fn has_substring(hay: Seq<char>, needle: Seq<char>) -> bool {
    exists|at: int| occurs_at(hay, needle, at)
}

/// `at` is the leftmost index at which `needle` stands in `hay`.
pub open spec fn first_occurrence(hay: Seq<char>, needle: Seq<char>, at: int) -> bool {
    &&& occurs_at(hay, needle, at)
    &&& forall|earlier: int| 0 <= earlier < at ==> !occurs_at(hay, needle, earlier)
}

/// `prefix` opens `text`.
pub open spec fn starts_with(text: Seq<char>, prefix: Seq<char>) -> bool {
    occurs_at(text, prefix, 0)
}

/// The characters of `s`, in order.
pub fn to_chars(s: &str) -> (chars: Vec<char>)
    ensures
        chars@ == s@,
{
    let mut chars: Vec<char> = Vec::new();
    for c in it: s.chars()
        invariant
            chars@ == it.seq().take(it.index() as int),
            it.seq() == s@,
    {
        chars.push(c);
    }
    chars
}

/// Tests whether `needle` stands in `hay` at `at`. An index past the last
/// possible position gives `false`.
pub fn matches_at(hay: &[char], needle: &[char], at: usize) -> (found: bool)
    ensures
        found == occurs_at(hay@, needle@, at as int),
{
    if needle.len() > hay.len() || at > hay.len() - needle.len() {
        return false;
    }
    let mut k: usize = 0;
    while k < needle.len()
        invariant
            k <= needle.len(),
            at + needle.len() <= hay.len(),
            forall|j: int| 0 <= j < k ==> hay@[at + j] == needle@[j],
        decreases needle.len() - k,
    {
        if hay[at + k] != needle[k] {
            assert(hay@.subrange(at as int, at + needle@.len())[k as int] == hay@[at + k]);
            return false;
        }
        k += 1;
    }
    assert(hay@.subrange(at as int, at + needle@.len()) =~= needle@);
    true
}

/// The leftmost index at which `needle` stands in `hay`, if it stands there at all.
pub fn find(hay: &[char], needle: &[char]) -> (found: Option<usize>)
    ensures
        match found {
            Some(at) => first_occurrence(hay@, needle@, at as int),
            None => !has_substring(hay@, needle@),
        },
{
    if needle.len() > hay.len() {
        return None;
    }
    if needle.len() == 0 {
        assert(hay@.subrange(0, 0) =~= needle@);
        return Some(0);
    }
    let last: usize = hay.len() - needle.len();
    let mut at: usize = 0;
    while at <= last
        invariant
            at <= last + 1,
            last < hay.len(),
            last == hay.len() - needle.len(),
            forall|earlier: int| 0 <= earlier < at ==> !occurs_at(hay@, needle@, earlier),
        decreases last + 1 - at,
    {
        if matches_at(hay, needle, at) {
            return Some(at);
        }
        at += 1;
    }
    None
}

/// Whether `needle` stands somewhere in `hay`.
pub fn contains(hay: &[char], needle: &[char]) -> (found: bool)
    ensures
        found == has_substring(hay@, needle@),
{
    find(hay, needle).is_some()
}

/// Whether two texts hold the same characters.
pub fn same_text(a: &str, b: &str) -> (same: bool)
    ensures
        same == (a@ == b@),
{
    let left = String::from_str(a);
    let right = String::from_str(b);
    left == right
}

/// The decimal digit that stands for `d`, for `d` below ten.
pub open spec fn digit(d: nat) -> char {
    if d == 0 {
        '0'
    } else if d == 1 {
        '1'
    } else if d == 2 {
        '2'
    } else if d == 3 {
        '3'
    } else if d == 4 {
        '4'
    } else if d == 5 {
        '5'
    } else if d == 6 {
        '6'
    } else if d == 7 {
        '7'
    } else if d == 8 {
        '8'
    } else {
        '9'
    }
}

/// `n` written in base ten, without sign and without leading zeros.
pub open spec fn decimal(n: nat) -> Seq<char>
    decreases n,
{
    if n < 10 {
        seq![digit(n)]
    } else {
        decimal(n / 10).push(digit(n % 10))
    }
}

fn digit_text(d: usize) -> (t: &'static str)
    requires
        d < 10,
    ensures
        t@ == seq![digit(d as nat)],
{
    proof {
        reveal_strlit("0");
        reveal_strlit("1");
        reveal_strlit("2");
        reveal_strlit("3");
        reveal_strlit("4");
        reveal_strlit("5");
        reveal_strlit("6");
        reveal_strlit("7");
        reveal_strlit("8");
        reveal_strlit("9");
    }
    let t = if d == 0 {
        "0"
    } else if d == 1 {
        "1"
    } else if d == 2 {
        "2"
    } else if d == 3 {
        "3"
    } else if d == 4 {
        "4"
    } else if d == 5 {
        "5"
    } else if d == 6 {
        "6"
    } else if d == 7 {
        "7"
    } else if d == 8 {
        "8"
    } else {
        "9"
    };
    assert(t@ =~= seq![digit(d as nat)]);
    t
}

/// Appends `n` in base ten to `out`.
pub fn push_decimal(out: &mut String, n: usize)
    ensures
        final(out)@ == old(out)@ + decimal(n as nat),
    decreases n,
{
    if n >= 10 {
        push_decimal(out, n / 10);
    }
    out.append(digit_text(n % 10));
    assert(out@ =~= old(out)@ + decimal(n as nat));
}

/// Unicode's `White_Space` property.
pub open spec fn is_whitespace(c: char) -> bool {
    let code = c as u32;
    ||| 0x09 <= code <= 0x0D
    ||| code == 0x20
    ||| code == 0x85
    ||| code == 0xA0
    ||| code == 0x1680
    ||| 0x2000 <= code <= 0x200A
    ||| code == 0x2028
    ||| code == 0x2029
    ||| code == 0x202F
    ||| code == 0x205F
    ||| code == 0x3000
}

/// Tests Unicode's `White_Space` property.
pub fn char_is_whitespace(c: char) -> (white: bool)
    ensures
        white == is_whitespace(c),
{
    let code: u32 = c as u32;
    (0x09 <= code && code <= 0x0D) || code == 0x20 || code == 0x85 || code == 0xA0 || code
        == 0x1680 || (0x2000 <= code && code <= 0x200A) || code == 0x2028 || code == 0x2029
        || code == 0x202F || code == 0x205F || code == 0x3000
}

/// `text` without its leading white space.
pub open spec fn trim_start(text: Seq<char>) -> Seq<char>
    decreases text.len(),
{
    if text.len() > 0 && is_whitespace(text[0]) {
        trim_start(text.drop_first())
    } else {
        text
    }
}

/// Whether `text`, once its leading white space is dropped, opens with `prefix`.
pub fn trimmed_starts_with(text: &[char], prefix: &[char]) -> (found: bool)
    ensures
        found == starts_with(trim_start(text@), prefix@),
{
    let mut at: usize = 0;
    assert(text@.subrange(0, text@.len() as int) =~= text@);
    while at < text.len() && char_is_whitespace(text[at])
        invariant
            at <= text.len(),
            trim_start(text@) == trim_start(text@.subrange(at as int, text@.len() as int)),
        decreases text.len() - at,
    {
        proof {
            let rest = text@.subrange(at as int, text@.len() as int);
            assert(rest.drop_first() =~= text@.subrange(at + 1, text@.len() as int));
        }
        at += 1;
    }
    let ghost rest = text@.subrange(at as int, text@.len() as int);
    assert(trim_start(rest) == rest);
    let found = matches_at(text, prefix, at);
    proof {
        if at + prefix@.len() <= text@.len() {
            assert(rest.subrange(0, prefix@.len() as int) =~= text@.subrange(
                at as int,
                at + prefix@.len(),
            ));
        }
    }
    found
}

/// The index of the first line feed at or after `from`, or the length of
/// `text` where none follows.
pub open spec fn next_newline(text: Seq<char>, from: int) -> int
    decreases text.len() - from,
{
    if from >= text.len() {
        text.len() as int
    } else if text[from] == '\n' {
        from
    } else {
        next_newline(text, from + 1)
    }
}

/// Where the content of the line that starts at `from` ends: before the line
/// feed that closes it, and before a carriage return just in front of that
/// line feed.
pub open spec fn line_content_end(text: Seq<char>, from: int) -> int {
    let feed = next_newline(text, from);
    if feed < text.len() && from < feed && text[feed - 1] == '\r' {
        feed - 1
    } else {
        feed
    }
}

/// The lines of `text` from index `from` on. A line ends at a line feed or at
/// a carriage return followed by a line feed; neither belongs to the line. A
/// final line needs no line ending, and a text that ends in one has no empty
/// line after it.
pub open spec fn lines_from(text: Seq<char>, from: int) -> Seq<Seq<char>>
    decreases text.len() + 1 - from,
    via lines_from_terminates
{
    if from < 0 || from >= text.len() {
        Seq::empty()
    } else {
        seq![text.subrange(from, line_content_end(text, from))] + lines_from(
            text,
            next_newline(text, from) + 1,
        )
    }
}

#[via_fn]
proof fn lines_from_terminates(text: Seq<char>, from: int) {
    if 0 <= from < text.len() {
        lemma_next_newline_bounds(text, from);
    }
}

/// The lines of `text`.
pub open spec fn lines(text: Seq<char>) -> Seq<Seq<char>> {
    lines_from(text, 0)
}

/// Bounds of `next_newline`.
pub proof fn lemma_next_newline_bounds(text: Seq<char>, from: int)
    requires
        0 <= from <= text.len(),
    ensures
        from <= next_newline(text, from) <= text.len(),
        next_newline(text, from) < text.len() ==> text[next_newline(text, from)] == '\n',
        forall|k: int| from <= k < next_newline(text, from) ==> text[k] != '\n',
    decreases text.len() - from,
{
    if from < text.len() && text[from] != '\n' {
        lemma_next_newline_bounds(text, from + 1);
    }
}

/// Finds the line that starts at `from`: the index at which its content ends
/// and the index of the line feed that closes it, which is the length of
/// `text` where the line is the last one and has no line ending.
pub fn line_at(text: &[char], from: usize) -> (bounds: (usize, usize))
    requires
        from <= text@.len(),
    ensures
        bounds.0 == line_content_end(text@, from as int),
        bounds.1 == next_newline(text@, from as int),
        from <= bounds.0 <= bounds.1 <= text@.len(),
{
    let mut feed: usize = from;
    while feed < text.len() && text[feed] != '\n'
        invariant
            from <= feed <= text.len(),
            next_newline(text@, from as int) == next_newline(text@, feed as int),
        decreases text.len() - feed,
    {
        feed += 1;
    }
    let content_end: usize = if feed < text.len() && from < feed && text[feed - 1] == '\r' {
        feed - 1
    } else {
        feed
    };
    (content_end, feed)
}

/// Splits `text` into its lines.
pub fn split_lines(text: &str) -> (found: Vec<String>)
    ensures
        found.deep_view() == lines(text@),
{
    let chars = to_chars(text);
    let total: usize = chars.len();
    let mut found: Vec<String> = Vec::new();
    let mut from: usize = 0;
    assert(lines(text@) =~= found.deep_view() + lines_from(text@, 0));
    while from < total
        invariant
            chars@ == text@,
            total == chars@.len(),
            from <= total,
            lines(text@) == found.deep_view() + lines_from(text@, from as int),
        decreases total - from,
    {
        let bounds = line_at(chars.as_slice(), from);
        let ghost before = found.deep_view();
        let line = String::from_str(text.substring_char(from, bounds.0));
        proof {
            lemma_next_newline_bounds(text@, from as int);
            assert(lines_from(text@, from as int) =~= seq![line@] + lines_from(
                text@,
                bounds.1 + 1,
            ));
        }
        found.push(line);
        proof {
            assert(found.deep_view() =~= before.push(line@));
            assert(before + lines_from(text@, from as int) =~= found.deep_view() + lines_from(
                text@,
                bounds.1 + 1,
            ));
        }
        if bounds.1 < total {
            from = bounds.1 + 1;
        } else {
            proof {
                assert(lines_from(text@, bounds.1 + 1) =~= lines_from(text@, total as int));
            }
            from = total;
        }
    }
    proof {
        assert(lines_from(text@, from as int) =~= Seq::<Seq<char>>::empty());
        assert(found.deep_view() + Seq::<Seq<char>>::empty() =~= found.deep_view());
    }
    found
}

/// What `str::to_lowercase` gives for a text.
pub uninterp spec fn lowercase(text: Seq<char>) -> Seq<char>;

/// What formatting a text with `{:?}` gives: the text between double quotes,
/// with the characters escaped that Rust escapes there.
pub uninterp spec fn debug_quoted(text: Seq<char>) -> Seq<char>;

/// What `String::from_utf8_lossy` gives for a run of bytes.
pub uninterp spec fn utf8_lossy(bytes: Seq<u8>) -> Seq<char>;

/// Calls `str::to_lowercase`. The result is a function of the text alone and
/// is named `lowercase`; nothing more is claimed of it.
#[verifier::external_body]
pub(crate) fn to_lowercase(text: &str) -> (lowered: String)
    ensures
        lowered@ == lowercase(text@),
{
    text.to_lowercase()
}

/// Formats a text with `{:?}`, as `<str as Debug>::fmt` writes it. The
/// result is a function of the text alone and is named `debug_quoted`.
#[verifier::external_body]
pub(crate) fn to_debug_quoted(text: &str) -> (quoted: String)
    ensures
        quoted@ == debug_quoted(text@),
{
    format!("{:?}", text)
}

/// Calls `String::from_utf8_lossy`, which decodes UTF-8 and puts U+FFFD in
/// place of what is not valid. The result is a function of the bytes alone
/// and is named `utf8_lossy`.
#[verifier::external_body]
pub(crate) fn decode_utf8_lossy(bytes: &[u8]) -> (decoded: String)
    ensures
        decoded@ == utf8_lossy(bytes@),
{
    String::from_utf8_lossy(bytes).into_owned()
}

} // verus!
