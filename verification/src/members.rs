//! Membership helpers shared by the governed resources.
//!
//! A principal is an opaque identifier; every member list is a vector
//! of principals that is valid only when it holds no duplicates.

use vstd::prelude::*;
use vstd::seq_lib::seq_to_set_is_finite;
use vstd::set_lib::lemma_len_subset;

verus! {

/// A principal: an identified party eligible to hold membership or
/// signing rights, carried as an opaque identifier.
pub type Principal = u64;

/// Every element of `a` also occurs in `b`.
pub open spec fn subset_of(a: Seq<Principal>, b: Seq<Principal>) -> bool {
    forall|i: int| 0 <= i < a.len() ==> b.contains(#[trigger] a[i])
}

/// Whether `x` occurs in `v`.
pub fn is_member(v: &Vec<Principal>, x: Principal) -> (b: bool)
    ensures
        b == v@.contains(x),
{
    let mut i: usize = 0;
    while i < v.len()
        invariant
            0 <= i <= v.len(),
            forall|k: int| 0 <= k < i ==> v@[k] != x,
        decreases v.len() - i,
    {
        if v[i] == x {
            return true;
        }
        i += 1;
    }
    false
}

/// Whether some principal occurs twice in `v`.
pub fn has_duplicate(v: &Vec<Principal>) -> (b: bool)
    ensures
        b == !v@.no_duplicates(),
{
    let mut i: usize = 0;
    while i < v.len()
        invariant
            0 <= i <= v.len(),
            forall|p: int, q: int| 0 <= p < q < i ==> v@[p] != v@[q],
        decreases v.len() - i,
    {
        let mut j: usize = 0;
        while j < i
            invariant
                0 <= j <= i < v.len(),
                forall|k: int| 0 <= k < j ==> v@[k] != v@[i as int],
            decreases i - j,
        {
            if v[j] == v[i] {
                return true;
            }
            j += 1;
        }
        i += 1;
    }
    false
}

/// A duplicate-free sequence drawn from `b` is no longer than `b`.
pub proof fn lemma_no_dup_subset_len(a: Seq<Principal>, b: Seq<Principal>)
    requires
        a.no_duplicates(),
        subset_of(a, b),
    ensures
        a.len() <= b.len(),
{
    broadcast use seq_to_set_is_finite;

    a.unique_seq_to_set();
    b.lemma_cardinality_of_set();
    assert(a.to_set().subset_of(b.to_set())) by {
        assert forall|x: Principal| a.to_set().contains(x) implies b.to_set().contains(x) by {
            assert(a.contains(x));
            let i = choose|i: int| 0 <= i < a.len() && a[i] == x;
            assert(b.contains(a[i]));
        }
    }
    lemma_len_subset(a.to_set(), b.to_set());
}

} // verus!
