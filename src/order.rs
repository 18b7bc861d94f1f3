use vstd::prelude::*;
use vstd::multiset::lemma_multiset_empty_len;
use vstd::seq_lib::{to_multiset_build, to_multiset_contains, to_multiset_len, to_multiset_remove};

verus! {

/// Items that carry a creation instant.
pub trait Dated {
    spec fn created(&self) -> int;

    fn created_at(&self) -> (r: i64)
        ensures
            r as int == self.created(),
    ;
}

/// `a` comes no later than `b` in the chosen order.
pub open spec fn before<T: Dated>(a: T, b: T, newest_first: bool) -> bool {
    if newest_first {
        a.created() >= b.created()
    } else {
        a.created() <= b.created()
    }
}

/// The items are in the chosen order of creation.
pub open spec fn sorted_by_age<T: Dated>(s: Seq<T>, newest_first: bool) -> bool {
    forall|i: int, j: int| 0 <= i < j < s.len() ==> before(s[i], s[j], newest_first)
}

/// Index of the first item that comes before all others in the chosen order.
fn first_extreme<T: Dated>(v: &Vec<T>, newest_first: bool) -> (r: usize)
    requires
        v@.len() > 0,
    ensures
        r < v@.len(),
        forall|j: int| 0 <= j < v@.len() ==> before(v@[r as int], #[trigger] v@[j], newest_first),
{
    let mut best: usize = 0;
    let mut i: usize = 1;
    while i < v.len()
        invariant
            v@.len() > 0,
            best < i <= v@.len(),
            forall|j: int| 0 <= j < i ==> before(v@[best as int], #[trigger] v@[j], newest_first),
        decreases v@.len() - i,
    {
        let c = v[i].created_at();
        let b = v[best].created_at();
        if (newest_first && c > b) || (!newest_first && c < b) {
            best = i;
        }
        i = i + 1;
    }
    best
}

/// The items reordered by creation instant, newest first or oldest first.
pub fn sort_by_age<T: Dated>(items: Vec<T>, newest_first: bool) -> (r: Vec<T>)
    ensures
        r@.to_multiset() == items@.to_multiset(),
        r@.len() == items@.len(),
        sorted_by_age(r@, newest_first),
{
    broadcast use vstd::multiset::group_multiset_axioms;

    let mut rest = items;
    let mut sorted: Vec<T> = Vec::new();
    proof {
        to_multiset_len(sorted@);
        lemma_multiset_empty_len(sorted@.to_multiset());
        assert(sorted@.to_multiset().add(rest@.to_multiset()) =~= rest@.to_multiset());
    }
    while rest.len() > 0
        invariant
            sorted@.to_multiset().add(rest@.to_multiset()) == items@.to_multiset(),
            sorted@.len() + rest@.len() == items@.len(),
            sorted_by_age(sorted@, newest_first),
            forall|a: int, b: int| 0 <= a < sorted@.len() && 0 <= b < rest@.len() ==>
                before(#[trigger] sorted@[a], #[trigger] rest@[b], newest_first),
        decreases rest@.len(),
    {
        let m = first_extreme(&rest, newest_first);
        let ghost old_rest = rest@;
        let ghost old_sorted = sorted@;
        let x = rest.remove(m);
        proof {
            to_multiset_remove(old_rest, m as int);
            assert(old_rest[m as int] == x);
            to_multiset_contains(old_rest, x);
            assert(old_rest.to_multiset().count(x) > 0);
        }
        sorted.push(x);
        proof {
            to_multiset_build(old_sorted, x);
            assert(sorted@.to_multiset().add(rest@.to_multiset()) =~= old_sorted.to_multiset().add(old_rest.to_multiset()));
        }
        assert forall|a: int, b: int| 0 <= a < sorted@.len() && 0 <= b < rest@.len() implies
            before(#[trigger] sorted@[a], #[trigger] rest@[b], newest_first) by {
            let ob = if b < m { b } else { b + 1 };
            assert(rest@[b] == old_rest[ob]);
            if a < old_sorted.len() {
                assert(sorted@[a] == old_sorted[a]);
            }
        }
        assert forall|i: int, j: int| 0 <= i < j < sorted@.len() implies before(sorted@[i], sorted@[j], newest_first) by {
            if j < old_sorted.len() {
                assert(sorted@[i] == old_sorted[i] && sorted@[j] == old_sorted[j]);
            } else {
                assert(sorted@[i] == old_sorted[i]);
                assert(old_rest[m as int] == x);
            }
        }
    }
    proof {
        to_multiset_len(rest@);
        lemma_multiset_empty_len(rest@.to_multiset());
        assert(sorted@.to_multiset().add(rest@.to_multiset()) =~= sorted@.to_multiset());
    }
    sorted
}

} // verus!
