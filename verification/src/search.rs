//! "The first position where something holds", as a specification, with the lemma that says what it
//! means. Every search in the library (the first matching line, section, tier or character) is
//! stated through it.

use vstd::prelude::*;

verus! {

/// The first `i` in `lo..n` with `p(i)`, if any.
pub open spec fn first_where_from(lo: int, n: int, p: spec_fn(int) -> bool) -> Option<int>
    decreases n - lo,
{
    if lo >= n {
        None
    } else if p(lo) {
        Some(lo)
    } else {
        first_where_from(lo + 1, n, p)
    }
}

/// The first `i` in `0..n` with `p(i)`, if any.
pub open spec fn first_where(n: int, p: spec_fn(int) -> bool) -> Option<int> {
    first_where_from(0, n, p)
}

/// The index of the first element of `s` satisfying `p`.
pub open spec fn index_of_first<A>(s: Seq<A>, p: spec_fn(A) -> bool) -> Option<int> {
    first_where(s.len() as int, |i: int| p(s[i]))
}

/// What `first_where_from` means: the least witness, or none at all.
pub proof fn lemma_first_where_from(lo: int, n: int, p: spec_fn(int) -> bool)
    ensures
        match first_where_from(lo, n, p) {
            Some(i) => lo <= i < n && p(i) && forall|j: int| lo <= j < i ==> !#[trigger] p(j),
            None => forall|j: int| lo <= j < n ==> !#[trigger] p(j),
        },
    decreases n - lo,
{
    if lo < n && !p(lo) {
        lemma_first_where_from(lo + 1, n, p);
    }
}

/// What `first_where` means: the least witness, or none at all.
pub proof fn lemma_first_where(n: int, p: spec_fn(int) -> bool)
    ensures
        match first_where(n, p) {
            Some(i) => 0 <= i < n && p(i) && forall|j: int| 0 <= j < i ==> !#[trigger] p(j),
            None => forall|j: int| 0 <= j < n ==> !#[trigger] p(j),
        },
{
    lemma_first_where_from(0, n, p);
}

/// `first_where` is determined by the least witness.
pub proof fn lemma_first_where_is(n: int, p: spec_fn(int) -> bool, i: int)
    requires
        0 <= i < n,
        p(i),
        forall|j: int| 0 <= j < i ==> !#[trigger] p(j),
    ensures
        first_where(n, p) == Some(i),
{
    lemma_first_where(n, p);
    match first_where(n, p) {
        Some(k) => {
            if k < i {
            } else if k > i {
            }
        },
        None => {},
    }
}

/// `first_where` finds nothing when nothing holds.
pub proof fn lemma_first_where_none(n: int, p: spec_fn(int) -> bool)
    requires
        forall|j: int| 0 <= j < n ==> !#[trigger] p(j),
    ensures
        first_where(n, p) == None::<int>,
{
    lemma_first_where(n, p);
}

/// Two predicates that agree on `0..n` find the same position.
pub proof fn lemma_first_where_ext(n: int, p: spec_fn(int) -> bool, q: spec_fn(int) -> bool)
    requires
        forall|j: int| #![trigger p(j)] #![trigger q(j)] 0 <= j < n ==> p(j) == q(j),
    ensures
        first_where(n, p) == first_where(n, q),
{
    lemma_first_where(n, p);
    lemma_first_where(n, q);
    match first_where(n, p) {
        Some(i) => lemma_first_where_is(n, q, i),
        None => lemma_first_where_none(n, q),
    }
}

} // verus!
