//! Facts about descriptions as sequences of characters.

use vstd::prelude::*;

verus! {

/// Whether `part` occurs in `whole` as a run of consecutive characters.
pub open spec fn contains(whole: Seq<char>, part: Seq<char>) -> bool {
    exists|start: int|
        0 <= start && start + part.len() <= whole.len() && #[trigger] whole.subrange(
            start,
            start + part.len(),
        ) == part
}

/// A text that is put behind a prefix occurs in the result.
pub proof fn lemma_contains_after_prefix(prefix: Seq<char>, part: Seq<char>)
    ensures
        contains(prefix + part, part),
{
    let whole = prefix + part;
    let start = prefix.len() as int;
    assert(whole.subrange(start, start + part.len()) =~= part);
}

/// Returns `prefix` followed by `rest`.
pub fn prefixed(prefix: &str, rest: &str) -> (text: String)
    ensures
        text@ == prefix@ + rest@,
{
    String::from_str(prefix).concat(rest)
}

} // verus!
