//! Text helpers: prefix tests, splitting at a separator and trimming, each
//! stated over the sequence of characters that a string holds.

use vstd::prelude::*;

verus! {

/// Whether `c` is whitespace: one of the 25 characters that carry Unicode's
/// `White_Space` property. These are the tab, line feed, vertical tab, form
/// feed and carriage return, the space, the next-line control, the no-break
/// space, the Ogham space mark, the spaces from en quad to hair space, the line
/// and paragraph separators, the narrow no-break space, the medium
/// mathematical space and the ideographic space.
pub open spec fn white_space(c: char) -> bool {
    let code = c as u32;
    ||| 0x0009 <= code <= 0x000D
    ||| code == 0x0020
    ||| code == 0x0085
    ||| code == 0x00A0
    ||| code == 0x1680
    ||| 0x2000 <= code <= 0x200A
    ||| code == 0x2028
    ||| code == 0x2029
    ||| code == 0x202F
    ||| code == 0x205F
    ||| code == 0x3000
}

/// Whether `c` is whitespace.
pub fn is_whitespace(c: char) -> (answer: bool)
    ensures
        answer == white_space(c),
{
    let code: u32 = c as u32;
    (0x0009 <= code && code <= 0x000D) || code == 0x0020 || code == 0x0085 || code == 0x00A0
        || code == 0x1680 || (0x2000 <= code && code <= 0x200A) || code == 0x2028 || code
        == 0x2029 || code == 0x202F || code == 0x205F || code == 0x3000
}

/// Whether `pattern` stands in `text` at position `at`.
pub open spec fn occurs_at(text: Seq<char>, pattern: Seq<char>, at: int) -> bool {
    0 <= at && at + pattern.len() <= text.len() && text.subrange(at, at + pattern.len())
        == pattern
}

/// The first position at or after `from` where `pattern` stands in `text`.
pub open spec fn find_from(text: Seq<char>, pattern: Seq<char>, from: int) -> Option<int>
    decreases text.len() - from + 1,
{
    if from < 0 || from + pattern.len() > text.len() {
        None
    } else if occurs_at(text, pattern, from) {
        Some(from)
    } else {
        find_from(text, pattern, from + 1)
    }
}

/// The first position where `pattern` stands in `text`.
pub open spec fn find(text: Seq<char>, pattern: Seq<char>) -> Option<int> {
    find_from(text, pattern, 0)
}

/// `text` without its leading whitespace.
pub open spec fn trim_start(text: Seq<char>) -> Seq<char>
    decreases text.len(),
{
    if text.len() > 0 && white_space(text[0]) {
        trim_start(text.skip(1))
    } else {
        text
    }
}

/// `text` without its trailing whitespace.
pub open spec fn trim_end(text: Seq<char>) -> Seq<char>
    decreases text.len(),
{
    if text.len() > 0 && white_space(text.last()) {
        trim_end(text.drop_last())
    } else {
        text
    }
}

/// `text` without its leading and trailing whitespace.
pub open spec fn trimmed(text: Seq<char>) -> Seq<char> {
    trim_end(trim_start(text))
}

/// `find_from` returns the least position at or after `from` where the pattern
/// stands, and nothing exactly when it stands at no such position.
pub proof fn lemma_find_from_is_first(text: Seq<char>, pattern: Seq<char>, from: int)
    requires
        0 <= from,
    ensures
        match find_from(text, pattern, from) {
            Some(at) => from <= at && occurs_at(text, pattern, at) && forall|j: int|
                from <= j < at ==> !occurs_at(text, pattern, j),
            None => forall|j: int| from <= j ==> !occurs_at(text, pattern, j),
        },
    decreases text.len() - from + 1,
{
    if from + pattern.len() > text.len() {
    } else if occurs_at(text, pattern, from) {
    } else {
        lemma_find_from_is_first(text, pattern, from + 1);
    }
}

/// The characters of a string, in order.
pub fn chars_of(s: &str) -> (chars: Vec<char>)
    ensures
        chars@ == s@,
{
    let mut chars: Vec<char> = Vec::new();
    for c in it: s.chars()
        invariant
            it.seq() == s@,
            chars@ == s@.take(it.index() as int),
    {
        chars.push(c);
    }
    chars
}

/// Whether `pattern` stands in `text` at position `at`.
fn matches_at(text: &Vec<char>, pattern: &Vec<char>, at: usize) -> (found: bool)
    requires
        at + pattern@.len() <= text@.len(),
    ensures
        found == occurs_at(text@, pattern@, at as int),
{
    let n: usize = text.len();
    let mut k: usize = 0;
    while k < pattern.len()
        invariant
            k <= pattern@.len(),
            n == text@.len(),
            at + pattern@.len() <= n,
            forall|j: int| 0 <= j < k ==> text@[at + j] == pattern@[j],
        decreases pattern@.len() - k,
    {
        if text[at + k] != pattern[k] {
            return false;
        }
        k += 1;
    }
    assert(text@.subrange(at as int, at + pattern@.len()) =~= pattern@);
    true
}

/// Whether `s` begins with `prefix`.
pub fn starts_with(s: &str, prefix: &str) -> (answer: bool)
    ensures
        answer == prefix@.is_prefix_of(s@),
{
    let text = chars_of(s);
    let pattern = chars_of(prefix);
    if pattern.len() > text.len() {
        return false;
    }
    let found = matches_at(&text, &pattern, 0);
    found
}

/// Splits `s` at the first place where `separator` stands: what precedes it and
/// what follows it. Nothing when the separator does not occur.
pub fn split_once(s: &str, separator: &str) -> (parts: Option<(String, String)>)
    ensures
        match parts {
            Some((head, tail)) => find(s@, separator@) matches Some(at) && head@ == s@.subrange(
                0,
                at,
            ) && tail@ == s@.subrange(at + separator@.len(), s@.len() as int),
            None => find(s@, separator@) is None,
        },
{
    let text = chars_of(s);
    let pattern = chars_of(separator);
    if pattern.len() > text.len() {
        return None;
    }
    let n: usize = text.len();
    let last: usize = n - pattern.len();
    let mut at: usize = 0;
    loop
        invariant
            text@ == s@,
            pattern@ == separator@,
            n == text@.len(),
            last + pattern@.len() == n,
            at <= last,
            find(s@, separator@) == find_from(s@, separator@, at as int),
        decreases last - at,
    {
        if matches_at(&text, &pattern, at) {
            let head = s.substring_char(0, at).to_owned();
            let tail = s.substring_char(at + pattern.len(), n).to_owned();
            return Some((head, tail));
        }
        if at == last {
            return None;
        }
        at += 1;
    }
}

/// `s` without its leading and trailing whitespace.
pub fn trim(s: &str) -> (out: String)
    ensures
        out@ == trimmed(s@),
{
    let text = chars_of(s);
    let n: usize = text.len();
    let mut lo: usize = 0;
    assert(s@.skip(0) =~= s@);
    while lo < n && is_whitespace(text[lo])
        invariant
            text@ == s@,
            n == text@.len(),
            lo <= n,
            trim_start(s@) == trim_start(s@.skip(lo as int)),
        decreases n - lo,
    {
        assert(s@.skip(lo as int).skip(1) =~= s@.skip(lo + 1));
        lo += 1;
    }
    let mut hi: usize = n;
    while hi > lo && is_whitespace(text[hi - 1])
        invariant
            text@ == s@,
            n == text@.len(),
            lo <= hi <= n,
            trimmed(s@) == trim_end(s@.subrange(lo as int, hi as int)),
        decreases hi - lo,
    {
        assert(s@.subrange(lo as int, hi as int).drop_last() =~= s@.subrange(
            lo as int,
            hi - 1,
        ));
        hi -= 1;
    }
    s.substring_char(lo, hi).to_owned()
}

} // verus!
