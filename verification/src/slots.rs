//! Helpers for fixed-capacity slot arrays: sequences of optional entries
//! with a linear scan for lookup and insertion, shared by the routing
//! table and the service directory.

use vstd::prelude::*;

verus! {

/// Number of occupied slots in `s`.
pub open spec fn count_some<T>(s: Seq<Option<T>>) -> nat
    decreases s.len(),
{
    if s.len() == 0 {
        0
    } else {
        count_some(s.drop_last()) + if s.last() is Some {
            1nat
        } else {
            0nat
        }
    }
}

/// `i` is the first free slot of `s`.
pub open spec fn is_first_free<T>(s: Seq<Option<T>>, i: int) -> bool {
    &&& 0 <= i < s.len()
    &&& s[i] is None
    &&& forall|j: int| 0 <= j < i ==> s[j] is Some
}

/// Some slot of `s` is free.
pub open spec fn has_free<T>(s: Seq<Option<T>>) -> bool {
    exists|i: int| 0 <= i < s.len() && s[i] is None
}

/// How replacing one slot changes the number of occupied slots.
pub proof fn lemma_count_some_update<T>(s: Seq<Option<T>>, i: int, v: Option<T>)
    requires
        0 <= i < s.len(),
    ensures
        count_some(s.update(i, v)) == count_some(s) - (if s[i] is Some {
            1int
        } else {
            0int
        }) + (if v is Some {
            1int
        } else {
            0int
        }),
    decreases s.len(),
{
    if i == s.len() - 1 {
        assert(s.update(i, v).drop_last() =~= s.drop_last());
    } else {
        assert(s.update(i, v).drop_last() =~= s.drop_last().update(i, v));
        lemma_count_some_update(s.drop_last(), i, v);
    }
}

/// No more slots can be occupied than exist.
pub proof fn lemma_count_some_le_len<T>(s: Seq<Option<T>>)
    ensures
        count_some(s) <= s.len(),
    decreases s.len(),
{
    if s.len() > 0 {
        lemma_count_some_le_len(s.drop_last());
    }
}

/// An occupied slot means at least one slot is occupied.
pub proof fn lemma_count_some_pos<T>(s: Seq<Option<T>>, i: int)
    requires
        0 <= i < s.len(),
        s[i] is Some,
    ensures
        count_some(s) >= 1,
    decreases s.len(),
{
    if i < s.len() - 1 {
        lemma_count_some_pos(s.drop_last(), i);
    }
}

/// Appending a free slot leaves the occupied count unchanged.
pub proof fn lemma_count_some_push_none<T>(s: Seq<Option<T>>)
    ensures
        count_some(s.push(None)) == count_some(s),
{
    assert(s.push(None::<T>).drop_last() =~= s);
}

/// The first free slot is unique.
pub proof fn lemma_first_free_unique<T>(s: Seq<Option<T>>, i: int, j: int)
    requires
        is_first_free(s, i),
        is_first_free(s, j),
    ensures
        i == j,
{
}

} // verus!
