//! Character-level helpers shared by the chat pipeline.
//!
//! Strings are modelled by their sequence of characters (`Seq<char>`), which is
//! what `@` gives for `str` and `String`.

use vstd::prelude::*;

verus! {

/// Whether `c` is whitespace in the sense of `char::is_whitespace`, that is,
/// whether it has the Unicode property `White_Space`.
pub uninterp spec fn white_space(c: char) -> bool;

/// What `str::to_lowercase` returns for a string with the characters `s`.
pub uninterp spec fn lowercase(s: Seq<char>) -> Seq<char>;

/// `char::is_whitespace` decides the Unicode property `White_Space`. The
/// property is a fixed table of code points, so the answer depends on the
/// character alone; it is known here only by the name `white_space`.
pub assume_specification[ char::is_whitespace ](c: char) -> (b: bool)
    ensures
        b == white_space(c),
;

/// `str::to_lowercase` maps a string to its Unicode lowercase form. The mapping
/// is fixed by the Unicode tables and depends on the characters alone (it is
/// not a per-character map: a few characters lower to several, and one lowers
/// by position), so it is known here only by the name `lowercase`.
pub assume_specification[ str::to_lowercase ](s: &str) -> (lowered: String)
    ensures
        lowered@ == lowercase(s@),
;

/// The first index at or after `from` that holds no whitespace, or the length
/// of `s` if there is none.
pub open spec fn skip_white_space(s: Seq<char>, from: int) -> int
    decreases s.len() - from,
{
    if 0 <= from < s.len() && white_space(s[from]) {
        skip_white_space(s, from + 1)
    } else {
        from
    }
}

/// The smallest end `e >= start` such that everything in `e..end` is
/// whitespace.
pub open spec fn drop_white_space(s: Seq<char>, start: int, end: int) -> int
    decreases end,
{
    if start < end <= s.len() && 0 < end && white_space(s[end - 1]) {
        drop_white_space(s, start, end - 1)
    } else {
        end
    }
}

/// Where the trimmed part of `s` starts.
pub open spec fn trim_start_index(s: Seq<char>) -> int {
    skip_white_space(s, 0)
}

/// Where the trimmed part of `s` ends (exclusive).
pub open spec fn trim_end_index(s: Seq<char>) -> int {
    drop_white_space(s, trim_start_index(s), s.len() as int)
}

/// `s` without its leading and trailing whitespace.
pub open spec fn trimmed(s: Seq<char>) -> Seq<char> {
    s.subrange(trim_start_index(s), trim_end_index(s))
}

/// `skip_white_space` stays inside the sequence, passes only whitespace and
/// stops at a character that is none.
pub proof fn lemma_skip_white_space(s: Seq<char>, from: int)
    requires
        0 <= from <= s.len(),
    ensures
        from <= skip_white_space(s, from) <= s.len(),
        forall|i: int| from <= i < skip_white_space(s, from) ==> white_space(#[trigger] s[i]),
        skip_white_space(s, from) < s.len() ==> !white_space(s[skip_white_space(s, from)]),
    decreases s.len() - from,
{
    if from < s.len() && white_space(s[from]) {
        lemma_skip_white_space(s, from + 1);
    }
}

/// `drop_white_space` stays between `start` and `end`, drops only whitespace
/// and stops behind a character that is none.
pub proof fn lemma_drop_white_space(s: Seq<char>, start: int, end: int)
    requires
        0 <= start <= end <= s.len(),
    ensures
        start <= drop_white_space(s, start, end) <= end,
        forall|i: int| drop_white_space(s, start, end) <= i < end ==> white_space(#[trigger] s[i]),
        start < drop_white_space(s, start, end) ==> !white_space(
            s[drop_white_space(s, start, end) - 1],
        ),
    decreases end,
{
    if start < end && white_space(s[end - 1]) {
        lemma_drop_white_space(s, start, end - 1);
    }
}

/// Trimming keeps one contiguous part of the string, cuts away nothing but
/// whitespace, and what it keeps neither starts nor ends with whitespace.
pub proof fn lemma_trimmed(s: Seq<char>)
    ensures
        0 <= trim_start_index(s) <= trim_end_index(s) <= s.len(),
        forall|i: int| 0 <= i < trim_start_index(s) ==> white_space(#[trigger] s[i]),
        forall|i: int| trim_end_index(s) <= i < s.len() ==> white_space(#[trigger] s[i]),
        trimmed(s).len() > 0 ==> !white_space(trimmed(s).first()) && !white_space(
            trimmed(s).last(),
        ),
{
    lemma_skip_white_space(s, 0);
    lemma_drop_white_space(s, trim_start_index(s), s.len() as int);
}

/// The characters of `s`, in order.
pub fn chars_of(s: &str) -> (chars: Vec<char>)
    ensures
        chars@ == s@,
{
    let mut chars: Vec<char> = Vec::new();
    for c in it: s.chars()
        invariant
            chars@ == it.seq().take(it.index() as int),
            it.seq() == s@,
    {
        chars.push(c);
    }
    chars
}

/// `s` without its leading and trailing whitespace.
pub fn trim(s: &str) -> (kept: &str)
    ensures
        kept@ == trimmed(s@),
{
    let chars = chars_of(s);
    let len: usize = chars.len();
    let mut start: usize = 0;
    while start < len && chars[start].is_whitespace()
        invariant
            len == chars@.len(),
            0 <= start <= len,
            skip_white_space(chars@, start as int) == skip_white_space(chars@, 0),
        decreases len - start,
    {
        start = start + 1;
    }
    let mut end: usize = len;
    while start < end && chars[end - 1].is_whitespace()
        invariant
            len == chars@.len(),
            start <= end <= len,
            drop_white_space(chars@, start as int, end as int) == drop_white_space(
                chars@,
                start as int,
                len as int,
            ),
        decreases end,
    {
        end = end - 1;
    }
    s.substring_char(start, end)
}

} // verus!
