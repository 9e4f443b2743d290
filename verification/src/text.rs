//! Small operations on strings that the rest of the crate is built from.

use vstd::prelude::*;

verus! {

/// Whether `text` begins with `prefix`.
pub(crate) fn has_prefix(text: &str, prefix: &str) -> (found: bool)
    ensures
        found == prefix@.is_prefix_of(text@),
{
    let prefix_len: usize = prefix.unicode_len();
    let text_len: usize = text.unicode_len();
    if text_len < prefix_len {
        return false;
    }
    let mut i: usize = 0;
    while i < prefix_len
        invariant
            i <= prefix_len,
            prefix_len == prefix@.len(),
            text_len == text@.len(),
            prefix_len <= text_len,
            forall|j: int| 0 <= j < i ==> prefix@[j] == text@[j],
        decreases prefix_len - i,
    {
        if prefix.get_char(i) != text.get_char(i) {
            return false;
        }
        i = i + 1;
    }
    true
}

/// `first` followed by `second`.
pub(crate) fn concat2(first: &str, second: &str) -> (joined: String)
    ensures
        joined@ == first@ + second@,
{
    let mut joined: String = String::from_str(first);
    joined.append(second);
    joined
}

/// `first`, `second` and `third` in a row.
pub(crate) fn concat3(first: &str, second: &str, third: &str) -> (joined: String)
    ensures
        joined@ == first@ + second@ + third@,
{
    let mut joined: String = String::from_str(first);
    joined.append(second);
    joined.append(third);
    joined
}

} // verus!
