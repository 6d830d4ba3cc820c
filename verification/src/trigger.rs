//! Extraction of the audio trigger from a reassembled chat message.
//!
//! The trigger is what follows the last occurrence of the two-character marker
//! `"&f"`. A message without the marker has no trigger; a message that ends
//! with the marker has the empty trigger.

use crate::text::chars_of;
use vstd::prelude::*;

verus! {

/// The number of characters in the marker.
pub const MARKER_LEN: usize = 2;

/// Whether the marker `"&f"` occurs in `s` at index `i`.
pub open spec fn marker_at(s: Seq<char>, i: int) -> bool {
    0 <= i && i + 2 <= s.len() && s[i] == '&' && s[i + 1] == 'f'
}

/// Whether the marker occurs in `s` at `i` and nowhere behind `i`.
pub open spec fn is_last_marker(s: Seq<char>, i: int) -> bool {
    marker_at(s, i) && forall|j: int| i < j ==> !marker_at(s, j)
}

/// The greatest index below `bound` at which the marker occurs in `s`.
pub open spec fn last_marker_below(s: Seq<char>, bound: int) -> Option<int>
    decreases bound,
{
    if bound <= 0 {
        None
    } else if marker_at(s, bound - 1) {
        Some(bound - 1)
    } else {
        last_marker_below(s, bound - 1)
    }
}

/// The index of the last occurrence of the marker in `s`.
pub open spec fn last_marker(s: Seq<char>) -> Option<int> {
    last_marker_below(s, s.len() as int)
}

/// The trigger of the message `s`: everything behind its last marker.
pub open spec fn trigger_of(s: Seq<char>) -> Option<Seq<char>> {
    match last_marker(s) {
        Some(i) => Some(s.skip(i + 2)),
        None => None,
    }
}

/// `last_marker_below` finds the greatest occurrence below the bound, and
/// finds none exactly when there is none.
pub proof fn lemma_last_marker_below(s: Seq<char>, bound: int)
    ensures
        match last_marker_below(s, bound) {
            Some(i) => i < bound && marker_at(s, i) && forall|j: int|
                i < j < bound ==> !marker_at(s, j),
            None => forall|j: int| j < bound ==> !marker_at(s, j),
        },
    decreases bound,
{
    if bound > 0 && !marker_at(s, bound - 1) {
        lemma_last_marker_below(s, bound - 1);
    }
}

/// The last marker wins: `last_marker` is an occurrence of the marker with no
/// occurrence behind it, it is the only such index, and it is absent exactly
/// when the marker occurs nowhere.
pub proof fn lemma_last_marker(s: Seq<char>)
    ensures
        last_marker(s) matches Some(i) ==> is_last_marker(s, i),
        last_marker(s) is None <==> forall|j: int| !marker_at(s, j),
        forall|i: int| is_last_marker(s, i) ==> last_marker(s) == Some(i),
{
    lemma_last_marker_below(s, s.len() as int);
}

/// The trigger of `message`, if it has one.
///
/// Returns what follows the last `"&f"` up to the end of the message, which
/// may be empty, and `None` when the message holds no `"&f"`.
pub fn extract_trigger(message: &str) -> (trigger: Option<String>)
    ensures
        trigger is Some <==> exists|i: int| marker_at(message@, i),
        trigger matches Some(t) ==> exists|i: int|
            is_last_marker(message@, i) && t@ == message@.skip(i + 2),
        match trigger {
            Some(t) => trigger_of(message@) == Some(t@),
            None => trigger_of(message@) is None,
        },
{
    let chars = chars_of(message);
    let len: usize = chars.len();
    let mut bound: usize = len;
    proof {
        lemma_last_marker(message@);
    }
    while bound > 0
        invariant
            chars@ == message@,
            len == chars@.len(),
            bound <= len,
            last_marker_below(chars@, bound as int) == last_marker(chars@),
        decreases bound,
    {
        let at: usize = bound - 1;
        if at + 1 < len && chars[at] == '&' && chars[at + 1] == 'f' {
            proof {
                lemma_last_marker(message@);
            }
            let rest = message.substring_char(at + MARKER_LEN, len);
            assert(rest@ =~= message@.skip(at + 2));
            return Some(rest.to_owned());
        }
        bound = at;
    }
    None
}

} // verus!
