//! Reassembly of chat messages that the server split over several lines.
//!
//! A line that starts with the continuation prefix carries on the message of
//! the most recent top-level line. The host drops the whitespace at which it
//! split the message, so the two parts are joined with a single space. That is
//! a best-effort guess at what was there, not a recovery of it.

use vstd::prelude::*;

verus! {

/// The number of characters in the continuation prefix.
pub const CONTINUATION_PREFIX_LEN: usize = 4;

/// The prefix that marks a continuation line: `"> &f"`.
pub open spec fn continuation_prefix() -> Seq<char> {
    seq!['>', ' ', '&', 'f']
}

/// What is put between the stored message and a continuation's payload.
pub open spec fn joiner() -> Seq<char> {
    seq![' ']
}

/// A line is a continuation when it begins with the continuation prefix;
/// every other line is top-level.
pub open spec fn is_continuation(line: Seq<char>) -> bool {
    continuation_prefix().is_prefix_of(line)
}

/// A continuation line without its prefix.
pub open spec fn payload(line: Seq<char>) -> Seq<char> {
    line.skip(CONTINUATION_PREFIX_LEN as int)
}

/// The message that is forwarded for `line` when `last` is the stored
/// top-level message.
pub open spec fn reassembled(last: Option<Seq<char>>, line: Seq<char>) -> Seq<char> {
    if !is_continuation(line) {
        line
    } else {
        match last {
            Some(prior) => prior + joiner() + payload(line),
            None => payload(line),
        }
    }
}

/// The stored top-level message after `line` has been handled.
pub open spec fn stored_after(last: Option<Seq<char>>, line: Seq<char>) -> Option<Seq<char>> {
    if !is_continuation(line) {
        Some(line)
    } else {
        last
    }
}

/// Whether `line` begins with the continuation prefix.
pub fn starts_continuation(line: &str) -> (b: bool)
    ensures
        b == is_continuation(line@),
{
    if line.unicode_len() < CONTINUATION_PREFIX_LEN {
        return false;
    }
    let b = line.get_char(0) == '>' && line.get_char(1) == ' ' && line.get_char(2) == '&'
        && line.get_char(3) == 'f';
    proof {
        if b {
            assert(line@.subrange(0, 4) =~= continuation_prefix());
        }
    }
    b
}

/// Holds the most recent top-level chat message, if any.
pub struct ChatReassembler {
    last: Option<String>,
}

impl View for ChatReassembler {
    type V = Option<Seq<char>>;

    /// The stored top-level message.
    closed spec fn view(&self) -> Option<Seq<char>> {
        match self.last {
            Some(s) => Some(s@),
            None => None,
        }
    }
}

impl ChatReassembler {
    /// A reassembler that has seen no message yet.
    pub fn new() -> (r: Self)
        ensures
            r@ is None,
    {
        ChatReassembler { last: None }
    }

    /// The stored top-level message.
    pub fn last_line(&self) -> (last: Option<&str>)
        ensures
            last is Some <==> self@ is Some,
            last matches Some(s) ==> self@ == Some(s@),
    {
        match &self.last {
            Some(s) => Some(s.as_str()),
            None => None,
        }
    }

    /// Handles one received line and returns the message to forward.
    ///
    /// A top-level line is stored and forwarded unchanged. A continuation is
    /// joined to the stored message with one space; with nothing stored, its
    /// payload is forwarded alone. A continuation leaves the stored message as
    /// it is.
    pub fn reassemble(&mut self, line: &str) -> (message: String)
        ensures
            message@ == reassembled(old(self)@, line@),
            final(self)@ == stored_after(old(self)@, line@),
            !is_continuation(line@) ==> message@ == line@ && final(self)@ == Some(line@),
    {
        if !starts_continuation(line) {
            self.last = Some(line.to_owned());
            line.to_owned()
        } else {
            let rest = line.substring_char(CONTINUATION_PREFIX_LEN, line.unicode_len());
            match &self.last {
                Some(prior) => {
                    let mut message = prior.clone();
                    proof {
                        reveal_strlit(" ");
                        assert(" "@ =~= joiner());
                    }
                    message.append(" ");
                    message.append(rest);
                    message
                },
                None => rest.to_owned(),
            }
        }
    }
}

} // verus!
