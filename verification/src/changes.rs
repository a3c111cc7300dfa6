//! Difference between two snapshots of a device list.
//!
//! [`changes`] compares a `before` and an `after` slice and reports, in
//! order, every element of `after` that is missing from `before` as
//! [`Change::Added`], followed by every element of `before` that is missing
//! from `after` as [`Change::Removed`].

use vstd::prelude::*;
use vstd::std_specs::cmp::PartialEqSpec;

verus! {

#[derive(Debug, PartialEq, Eq)]
pub enum Change<T> {
    Added(T),
    Removed(T),
}

/// Whether some element of `s` compares equal to `x` under the type's own
/// equality.
pub open spec fn seq_has<T: PartialEq>(s: Seq<T>, x: T) -> bool {
    exists|i: int| 0 <= i < s.len() && s[i].eq_spec(&x)
}

/// The elements of `after` that have no equal in `before`, kept in order.
pub open spec fn added_seq<T: PartialEq>(before: Seq<T>, after: Seq<T>) -> Seq<T>
    decreases after.len(),
{
    if after.len() == 0 {
        Seq::empty()
    } else {
        let rest = added_seq(before, after.drop_last());
        if seq_has(before, after.last()) {
            rest
        } else {
            rest.push(after.last())
        }
    }
}

/// The elements of `before` that have no equal in `after`, kept in order.
pub open spec fn removed_seq<T: PartialEq>(before: Seq<T>, after: Seq<T>) -> Seq<T> {
    added_seq(after, before)
}

fn slice_has<T: Eq>(s: &[T], x: &T) -> (r: bool)
    ensures
        T::obeys_eq_spec() ==> r == seq_has(s@, *x),
{
    let n = s.len();
    let mut i: usize = 0;
    while i < n
        invariant
            n == s@.len(),
            i <= n,
            T::obeys_eq_spec() ==> !seq_has(s@.take(i as int), *x),
        decreases n - i,
    {
        if s[i].eq(x) {
            assert(T::obeys_eq_spec() ==> s@[i as int].eq_spec(x));
            return true;
        }
        assert(s@.take(i + 1 as int).drop_last() =~= s@.take(i as int));
        i = i + 1;
    }
    proof {
        assert(s@.take(i as int) =~= s@);
    }
    false
}

/// Reports what changed between two snapshots: each element of `after` that
/// `before` lacks, as `Added`, in the order of `after`; then each element of
/// `before` that `after` lacks, as `Removed`, in the order of `before`.
pub fn changes<'t, T: Eq>(before: &'t [T], after: &'t [T]) -> (r: Vec<Change<&'t T>>)
    ensures
        T::obeys_eq_spec() ==> {
            let added = added_seq(before@, after@);
            let removed = removed_seq(before@, after@);
            &&& r@.len() == added.len() + removed.len()
            &&& forall|i: int|
                0 <= i < added.len() ==> ((#[trigger] r@[i]) matches Change::Added(x)
                    && *x == added[i])
            &&& forall|i: int|
                0 <= i < removed.len() ==> ((#[trigger] r@[added.len() + i]) matches Change::Removed(
                    x,
                ) && *x == removed[i])
        },
{
    let mut r: Vec<Change<&'t T>> = Vec::new();
    let mut j: usize = 0;
    while j < after.len()
        invariant
            j <= after@.len(),
            T::obeys_eq_spec() ==> {
                let added = added_seq(before@, after@.take(j as int));
                &&& r@.len() == added.len()
                &&& forall|i: int|
                    0 <= i < added.len() ==> ((#[trigger] r@[i]) matches Change::Added(x)
                        && *x == added[i])
            },
        decreases after@.len() - j,
    {
        assert(after@.take(j + 1 as int).drop_last() =~= after@.take(j as int));
        assert(after@.take(j + 1 as int).last() == after@[j as int]);
        if !slice_has(before, &after[j]) {
            r.push(Change::Added(&after[j]));
        }
        j = j + 1;
    }
    assert(after@.take(j as int) =~= after@);
    let ghost n_added = added_seq(before@, after@).len();
    let mut k: usize = 0;
    while k < before.len()
        invariant
            k <= before@.len(),
            T::obeys_eq_spec() ==> {
                let added = added_seq(before@, after@);
                let removed = added_seq(after@, before@.take(k as int));
                &&& n_added == added.len()
                &&& r@.len() == added.len() + removed.len()
                &&& forall|i: int|
                    0 <= i < added.len() ==> ((#[trigger] r@[i]) matches Change::Added(x)
                        && *x == added[i])
                &&& forall|i: int|
                    0 <= i < removed.len() ==> ((#[trigger] r@[added.len() + i]) matches
                        Change::Removed(x) && *x == removed[i])
            },
        decreases before@.len() - k,
    {
        assert(before@.take(k + 1 as int).drop_last() =~= before@.take(k as int));
        assert(before@.take(k + 1 as int).last() == before@[k as int]);
        if !slice_has(after, &before[k]) {
            r.push(Change::Removed(&before[k]));
        }
        k = k + 1;
    }
    assert(before@.take(k as int) =~= before@);
    r
}

} // verus!
