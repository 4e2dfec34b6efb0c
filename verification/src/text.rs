//! Text helpers: comparisons and searches on string slices.
use vstd::prelude::*;

verus! {

/// Compares two string slices with `==`; std's `PartialEq` for `str` is equal
/// exactly when the two hold the same characters.
#[verifier::external_body]
pub fn str_eq(a: &str, b: &str) -> (r: bool)
    ensures
        r == (a@ == b@),
{
    a == b
}

/// The text of an optional string.
pub open spec fn opt_text(s: Option<String>) -> Option<Seq<char>> {
    match s {
        Some(t) => Some(t@),
        None => None,
    }
}

/// The smallest index `i` with `names[i] == x`, if there is one.
pub open spec fn first_match(names: Seq<Seq<char>>, x: Seq<char>) -> Option<int> {
    if exists|i: int| 0 <= i < names.len() && names[i] == x {
        Some(
            choose|i: int|
                0 <= i < names.len() && names[i] == x && forall|j: int| 0 <= j < i ==> names[j] != x,
        )
    } else {
        None
    }
}

/// `k` is the first index of `x` in `names`.
pub proof fn lemma_first_match_found(names: Seq<Seq<char>>, x: Seq<char>, k: int)
    requires
        0 <= k < names.len(),
        names[k] == x,
        forall|j: int| 0 <= j < k ==> names[j] != x,
    ensures
        first_match(names, x) == Some(k),
{
    assert(exists|i: int| 0 <= i < names.len() && names[i] == x);
    let c = choose|i: int|
        0 <= i < names.len() && names[i] == x && forall|j: int| 0 <= j < i ==> names[j] != x;
    assert(0 <= c < names.len() && names[c] == x && forall|j: int| 0 <= j < c ==> names[j] != x);
    if c < k {
        assert(names[c] != x);
    }
    if c > k {
        assert(names[k] != x);
    }
}

/// A first match is an index of `names` holding `x`, with no earlier one.
pub proof fn lemma_first_match_is_first(names: Seq<Seq<char>>, x: Seq<char>)
    ensures
        first_match(names, x) matches Some(k) ==> {
            &&& 0 <= k < names.len()
            &&& names[k] == x
            &&& forall|j: int| 0 <= j < k ==> names[j] != x
        },
        first_match(names, x) is None ==> forall|j: int| 0 <= j < names.len() ==> names[j] != x,
{
    if exists|i: int| 0 <= i < names.len() && names[i] == x {
        let w = choose|i: int| 0 <= i < names.len() && names[i] == x;
        lemma_least_match(names, x, w);
    }
}

/// Where `x` occurs at or before `w`, a first occurrence exists.
proof fn lemma_least_match(names: Seq<Seq<char>>, x: Seq<char>, w: int)
    requires
        0 <= w < names.len(),
        names[w] == x,
    ensures
        exists|i: int| 0 <= i < names.len() && names[i] == x && forall|j: int| 0 <= j < i ==> names[j] != x,
    decreases w,
{
    if exists|j: int| 0 <= j < w && names[j] == x {
        let v = choose|j: int| 0 <= j < w && names[j] == x;
        lemma_least_match(names, x, v);
    } else {
        assert(forall|j: int| 0 <= j < w ==> names[j] != x);
    }
}

/// `x` is not among `names`.
pub proof fn lemma_first_match_none(names: Seq<Seq<char>>, x: Seq<char>)
    requires
        forall|j: int| 0 <= j < names.len() ==> names[j] != x,
    ensures
        first_match(names, x) is None,
{
}

} // verus!
