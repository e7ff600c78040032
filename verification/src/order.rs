use vstd::prelude::*;
use crate::text::{lex_lt, str_eq, str_lt, lemma_lex_irreflexive, lemma_lex_transitive, lemma_lex_total};

verus! {

/// Lexicographic order on pairs of strings: by the first, then by the
/// second. This is `Ord` on `(String, String)`.
pub open spec fn pair_lt(a: (Seq<char>, Seq<char>), b: (Seq<char>, Seq<char>)) -> bool {
    lex_lt(a.0, b.0) || (a.0 == b.0 && lex_lt(a.1, b.1))
}

pub proof fn lemma_pair_transitive(
    a: (Seq<char>, Seq<char>),
    b: (Seq<char>, Seq<char>),
    c: (Seq<char>, Seq<char>),
)
    requires
        pair_lt(a, b),
        pair_lt(b, c),
    ensures
        pair_lt(a, c),
{
    if lex_lt(a.0, b.0) && lex_lt(b.0, c.0) {
        lemma_lex_transitive(a.0, b.0, c.0);
    }
    if a.0 == b.0 && b.0 == c.0 {
        lemma_lex_irreflexive(a.0);
        lemma_lex_transitive(a.1, b.1, c.1);
    }
}

pub proof fn lemma_pair_total(a: (Seq<char>, Seq<char>), b: (Seq<char>, Seq<char>))
    ensures
        pair_lt(a, b) || pair_lt(b, a) || a == b,
{
    lemma_lex_total(a.0, b.0);
    lemma_lex_total(a.1, b.1);
}

/// Whether `(a0, a1)` comes strictly before `(b0, b1)`.
pub fn pair_lt_exec(a0: &str, a1: &str, b0: &str, b1: &str) -> (r: bool)
    ensures
        r == pair_lt((a0@, a1@), (b0@, b1@)),
{
    if str_lt(a0, b0) {
        true
    } else if str_eq(a0, b0) {
        str_lt(a1, b1)
    } else {
        false
    }
}

/// A sequence whose keys strictly increase.
pub open spec fn strictly_sorted(keys: Seq<(Seq<char>, Seq<char>)>) -> bool {
    forall|a: int, b: int| 0 <= a < b < keys.len() ==> pair_lt(#[trigger] keys[a], #[trigger] keys[b])
}

/// In a strictly sorted sequence, an element that is not below `x` at
/// position `p`, where everything before `p` is below `x`, makes every later
/// element above `x` as well.
pub proof fn lemma_sorted_insert(keys: Seq<(Seq<char>, Seq<char>)>, x: (Seq<char>, Seq<char>), p: int)
    requires
        strictly_sorted(keys),
        0 <= p <= keys.len(),
        forall|a: int| 0 <= a < p ==> pair_lt(#[trigger] keys[a], x),
        p < keys.len() ==> keys[p] != x && !pair_lt(keys[p], x),
    ensures
        strictly_sorted(keys.insert(p, x)),
{
    if p < keys.len() {
        lemma_pair_total(keys[p], x);
    }
    let s = keys.insert(p, x);
    assert forall|a: int, b: int| 0 <= a < b < s.len() implies pair_lt(#[trigger] s[a], #[trigger] s[b]) by {
        if a < p && b == p {
        } else if a < p && b > p {
            assert(s[b] == keys[b - 1]);
        } else if a == p && b > p {
            assert(s[b] == keys[b - 1]);
            if b - 1 > p {
                lemma_pair_transitive(x, keys[p], keys[b - 1]);
            }
        } else if a > p {
            assert(s[a] == keys[a - 1]);
            assert(s[b] == keys[b - 1]);
        }
    }
}

} // verus!
