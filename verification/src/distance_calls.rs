//! The call into the `distance` crate.
use vstd::prelude::*;

verus! {

pub open spec fn min3(a: nat, b: nat, c: nat) -> nat {
    if a <= b && a <= c {
        a
    } else if b <= c {
        b
    } else {
        c
    }
}

/// The Levenshtein distance between two character sequences: the fewest
/// single-character insertions, deletions and substitutions that turn `a` into `b`.
pub open spec fn levenshtein(a: Seq<char>, b: Seq<char>) -> nat
    decreases a.len() + b.len(),
{
    if a.len() == 0 {
        b.len()
    } else if b.len() == 0 {
        a.len()
    } else {
        min3(
            levenshtein(a.drop_last(), b) + 1,
            levenshtein(a, b.drop_last()) + 1,
            levenshtein(a.drop_last(), b.drop_last()) + if a.last() == b.last() {
                0nat
            } else {
                1nat
            },
        )
    }
}

/// `distance::levenshtein`, which fills the edit-distance table over the
/// characters of both strings; the contract states that table's last entry.
#[verifier::external_body]
pub(crate) fn call_levenshtein(a: &str, b: &str) -> (r: usize)
    ensures
        r == levenshtein(a@, b@),
{
    distance::levenshtein(a, b)
}

} // verus!
