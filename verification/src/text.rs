//! Small verified helpers over text, stated on the `Seq<char>` view of strings.

use vstd::prelude::*;

verus! {

/// View of an optional string: the view of the string it holds, if any.
pub open spec fn optional_text(value: Option<String>) -> Option<Seq<char>> {
    match value {
        Some(text) => Some(text@),
        None => None,
    }
}

/// View of a `Result`: the view of whichever side it holds.
pub open spec fn result_view<A: View, B: View>(value: Result<A, B>) -> Result<A::V, B::V> {
    match value {
        Ok(a) => Ok(a@),
        Err(b) => Err(b@),
    }
}

/// `head` followed by `tail`.
pub fn join(head: &str, tail: &str) -> (joined: String)
    ensures
        joined@ == head@ + tail@,
{
    let mut joined: String = head.to_owned();
    joined.append(tail);
    joined
}

/// Whether two strings hold the same characters.
pub fn same_text(left: &str, right: &str) -> (same: bool)
    ensures
        same == (left@ == right@),
{
    let one: String = left.to_owned();
    let other: String = right.to_owned();
    one == other
}

} // verus!
