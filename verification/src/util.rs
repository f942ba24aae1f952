//! Facts about positions in sequences of identifiers.
use vstd::prelude::*;

verus! {

/// `i` is the first index at which `x` occurs in `s`.
pub open spec fn is_first_index(s: Seq<i64>, x: i64, i: int) -> bool {
    &&& 0 <= i < s.len()
    &&& s[i] == x
    &&& forall|j: int| 0 <= j < i ==> s[j] != x
}

/// Index of the first occurrence of `x` in `s`.
pub open spec fn first_index(s: Seq<i64>, x: i64) -> int {
    choose|i: int| is_first_index(s, x, i)
}

pub proof fn lemma_first_index(s: Seq<i64>, x: i64, i: int)
    requires
        is_first_index(s, x, i),
    ensures
        first_index(s, x) == i,
{
    let j = first_index(s, x);
    assert(is_first_index(s, x, j));
    if j < i {
        assert(s[j] != x);
    }
    if i < j {
        assert(s[i] != x);
    }
}

/// Position of the first occurrence of `x` in `s`.
pub fn position_of(s: &Vec<i64>, x: i64) -> (position: Option<usize>)
    ensures
        match position {
            Some(i) => is_first_index(s@, x, i as int),
            None => !s@.contains(x),
        },
{
    let mut i: usize = 0;
    while i < s.len()
        invariant
            i <= s@.len(),
            forall|j: int| 0 <= j < i ==> s@[j] != x,
        decreases s@.len() - i,
    {
        if s[i] == x {
            return Some(i);
        }
        i += 1;
    }
    None
}

} // verus!
