//! Text helpers that the rest of the library shares.

use vstd::prelude::*;

verus! {

/// The `len` characters of `text` that start at `from`.
pub open spec fn window(text: Seq<char>, from: int, len: nat) -> Seq<char> {
    text.subrange(from, from + len)
}

/// `part` occurs somewhere in `text` as a run of consecutive characters.
pub open spec fn occurs(text: Seq<char>, part: Seq<char>) -> bool {
    exists|from: int|
        0 <= from && from + part.len() <= text.len() && #[trigger] window(text, from, part.len())
            == part
}

/// Substring search, done by `str::contains` with a string pattern. Its
/// documentation says that it answers whether the pattern matches a
/// sub-slice of the text; the contract repeats that over characters (a
/// match of well-formed UTF-8 inside well-formed UTF-8 begins and ends on
/// character boundaries).
#[verifier::external_body]
pub(crate) fn contains(text: &str, part: &str) -> (found: bool)
    ensures
        found == occurs(text@, part@),
{
    text.contains(part)
}

/// `head` followed by `tail`.
pub fn join(head: &str, tail: &str) -> (joined: String)
    ensures
        joined@ == head@ + tail@,
{
    let mut joined = head.to_owned();
    joined.append(tail);
    joined
}

} // verus!
