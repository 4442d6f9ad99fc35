//! Small operations on text, stated over sequences of characters.

use vstd::prelude::*;
use vstd::string::*;

verus! {

/// Whether `needle` stands in `hay` as one unbroken run of characters.
pub open spec fn occurs_in(needle: Seq<char>, hay: Seq<char>) -> bool {
    exists|before: Seq<char>, after: Seq<char>| #[trigger] (before + needle + after) == hay
}

/// Whether `s` begins with the characters of `prefix`.
pub open spec fn starts_with(s: Seq<char>, prefix: Seq<char>) -> bool {
    prefix.len() <= s.len() && s.take(prefix.len() as int) == prefix
}

/// What `char::is_whitespace` answers for `c`: whether the character has the
/// Unicode property `White_Space`.
pub uninterp spec fn is_whitespace(c: char) -> bool;

/// Calls `char::is_whitespace`. The answer depends on the character alone;
/// the contract gives that answer its name and claims nothing else of it.
#[verifier::external_body]
fn char_is_whitespace(c: char) -> (b: bool)
    ensures
        b == is_whitespace(c),
{
    c.is_whitespace()
}

/// The first position at or after `from` that does not hold whitespace, or
/// the length of `s` when only whitespace follows.
pub open spec fn skip_whitespace(s: Seq<char>, from: int) -> int
    decreases s.len() - from,
{
    if 0 <= from < s.len() && is_whitespace(s[from]) {
        skip_whitespace(s, from + 1)
    } else {
        from
    }
}

/// The end of `s[low..high]` once the whitespace at its end is dropped;
/// never below `low`.
pub open spec fn drop_whitespace(s: Seq<char>, low: int, high: int) -> int
    decreases high - low,
{
    if low < high <= s.len() && is_whitespace(s[high - 1]) {
        drop_whitespace(s, low, high - 1)
    } else {
        high
    }
}

/// Where the trimmed text begins in `s`.
pub open spec fn trim_start(s: Seq<char>) -> int {
    skip_whitespace(s, 0)
}

/// Where the trimmed text ends in `s` (one past its last character).
pub open spec fn trim_end(s: Seq<char>) -> int {
    drop_whitespace(s, trim_start(s), s.len() as int)
}

/// `s` without the whitespace at its two ends.
pub open spec fn trimmed(s: Seq<char>) -> Seq<char> {
    s.subrange(trim_start(s), trim_end(s))
}

/// The first position at or after `from` that holds a space, or the length
/// of `s` when no space follows.
pub open spec fn find_space(s: Seq<char>, from: int) -> int
    decreases s.len() - from,
{
    if 0 <= from < s.len() && s[from] != ' ' {
        find_space(s, from + 1)
    } else {
        from
    }
}

proof fn lemma_skip_whitespace(s: Seq<char>, from: int)
    requires
        0 <= from <= s.len(),
    ensures
        from <= skip_whitespace(s, from) <= s.len(),
        forall|i: int| from <= i < skip_whitespace(s, from) ==> is_whitespace(#[trigger] s[i]),
        skip_whitespace(s, from) < s.len() ==> !is_whitespace(s[skip_whitespace(s, from)]),
    decreases s.len() - from,
{
    if from < s.len() && is_whitespace(s[from]) {
        lemma_skip_whitespace(s, from + 1);
    }
}

proof fn lemma_drop_whitespace(s: Seq<char>, low: int, high: int)
    requires
        0 <= low <= high <= s.len(),
    ensures
        low <= drop_whitespace(s, low, high) <= high,
        forall|i: int|
            drop_whitespace(s, low, high) <= i < high ==> is_whitespace(#[trigger] s[i]),
        low < drop_whitespace(s, low, high) ==> !is_whitespace(
            s[drop_whitespace(s, low, high) - 1],
        ),
    decreases high - low,
{
    if low < high && is_whitespace(s[high - 1]) {
        lemma_drop_whitespace(s, low, high - 1);
    }
}

proof fn lemma_find_space(s: Seq<char>, from: int)
    requires
        0 <= from <= s.len(),
    ensures
        from <= find_space(s, from) <= s.len(),
        forall|i: int| from <= i < find_space(s, from) ==> #[trigger] s[i] != ' ',
        find_space(s, from) < s.len() ==> s[find_space(s, from)] == ' ',
    decreases s.len() - from,
{
    if from < s.len() && s[from] != ' ' {
        lemma_find_space(s, from + 1);
    }
}

/// Trimming keeps one stretch of the text: all that it leaves out, before
/// and after, is whitespace, and what it keeps neither begins nor ends with
/// whitespace.
pub proof fn lemma_trimmed_bounds(s: Seq<char>)
    ensures
        0 <= trim_start(s) <= trim_end(s) <= s.len(),
        forall|i: int| 0 <= i < trim_start(s) ==> is_whitespace(#[trigger] s[i]),
        forall|i: int| trim_end(s) <= i < s.len() ==> is_whitespace(#[trigger] s[i]),
        trimmed(s).len() > 0 ==> !is_whitespace(trimmed(s).first()) && !is_whitespace(
            trimmed(s).last(),
        ),
{
    lemma_skip_whitespace(s, 0);
    lemma_drop_whitespace(s, trim_start(s), s.len() as int);
}

/// The first space of a text parts it in a word without a space and the
/// rest: no position before `find_space(s, 0)` holds a space, and that
/// position holds one unless it is the end of the text.
pub proof fn lemma_first_space(s: Seq<char>)
    ensures
        0 <= find_space(s, 0) <= s.len(),
        forall|i: int| 0 <= i < find_space(s, 0) ==> #[trigger] s[i] != ' ',
        find_space(s, 0) < s.len() ==> s[find_space(s, 0)] == ' ',
{
    lemma_find_space(s, 0);
}

/// Whether two pieces of text hold the same characters.
pub fn same_text(a: &str, b: &str) -> (same: bool)
    ensures
        same == (a@ == b@),
{
    let left = a.to_owned();
    let right = b.to_owned();
    left == right
}

/// The characters of `s`, in order.
pub fn chars_of(s: &str) -> (chars: Vec<char>)
    ensures
        chars@ == s@,
{
    broadcast use vstd::string::group_string_axioms;

    let mut chars: Vec<char> = Vec::new();
    for c in it: s.chars()
        invariant
            it.seq() == s@,
            chars@ == it.seq().take(it.index() as int),
    {
        assert(it.seq().take(it.index() + 1) =~= it.seq().take(it.index() as int).push(c));
        chars.push(c);
    }
    assert(s@.take(s@.len() as int) =~= s@);
    chars
}

/// `s` without the whitespace at its two ends, as `str::trim` gives it.
pub fn trim<'a>(s: &'a str) -> (t: &'a str)
    ensures
        t@ == trimmed(s@),
{
    let chars = chars_of(s);
    let n: usize = chars.len();
    let mut start: usize = 0;
    while start < n && char_is_whitespace(chars[start])
        invariant
            start <= n,
            n == s@.len(),
            chars@ == s@,
            skip_whitespace(s@, start as int) == skip_whitespace(s@, 0),
        decreases n - start,
    {
        start += 1;
    }
    let mut end: usize = n;
    while end > start && char_is_whitespace(chars[end - 1])
        invariant
            start <= end <= n,
            n == s@.len(),
            chars@ == s@,
            drop_whitespace(s@, start as int, end as int) == drop_whitespace(
                s@,
                start as int,
                n as int,
            ),
        decreases end - start,
    {
        end -= 1;
    }
    s.substring_char(start, end)
}

/// The position of the first space among `chars`, or their number when
/// none of them is a space.
pub fn first_space(chars: &Vec<char>) -> (at: usize)
    ensures
        at == find_space(chars@, 0),
        at <= chars@.len(),
{
    let n: usize = chars.len();
    let mut at: usize = 0;
    while at < n && chars[at] != ' '
        invariant
            at <= n,
            n == chars@.len(),
            find_space(chars@, at as int) == find_space(chars@, 0),
        decreases n - at,
    {
        at += 1;
    }
    at
}

} // verus!
