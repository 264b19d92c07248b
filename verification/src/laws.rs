//! Stated laws of the size accounting.

use crate::size::{elem_indirect_sizes, sum, Size};
use vstd::prelude::*;
use vstd::seq_lib::{commutative_foldr, lemma_fold_right_permutation};

verus! {

proof fn lemma_sum_as_fold(ns: Seq<nat>, b: nat, f: spec_fn(nat, nat) -> nat)
    requires
        forall|x: nat, y: nat| #[trigger] f(x, y) == x + y,
    ensures
        ns.fold_right(f, b) == sum(ns) + b,
    decreases ns.len(),
{
    if ns.len() > 0 {
        lemma_sum_as_fold(ns.drop_last(), f(ns.last(), b), f);
    }
}

/// Summation of byte counts does not depend on the order of the summands:
/// two listings with the same multiset of counts — such as the indirect
/// sizes of a record's fields taken in two declaration orders — sum to the
/// same total.
pub proof fn lemma_sum_permutation(a: Seq<nat>, b: Seq<nat>)
    requires
        a.to_multiset() == b.to_multiset(),
    ensures
        sum(a) == sum(b),
{
    let f: spec_fn(nat, nat) -> nat = |x: nat, acc: nat| (x + acc) as nat;
    assert(commutative_foldr(f));
    lemma_fold_right_permutation(a, b, f, 0);
    lemma_sum_as_fold(a, 0, f);
    lemma_sum_as_fold(b, 0, f);
}

/// An empty optional admits exactly the count 0; a populated optional
/// admits exactly the counts that the value it wraps admits.
pub proof fn lemma_optional_indirect<T: Size>(x: Option<T>, n: nat)
    ensures
        x is None ==> (x.is_indirect_size(n) <==> n == 0),
        x matches Some(y) ==> (x.is_indirect_size(n) <==> y.is_indirect_size(n)),
{
}

/// Growing a sequence's reserved capacity by one unit, without touching
/// its elements, grows its admissible indirect size by exactly the
/// footprint of one element: both the count for capacity `cap` and the
/// count one element-footprint larger, for capacity `cap + 1`, are
/// admitted.
pub proof fn lemma_vec_capacity_unit<T: Size>(v: Vec<T>, cap: nat, ns: Seq<nat>, n: nat)
    requires
        v@.len() <= cap,
        (cap + 1) * vstd::layout::size_of::<T>() <= isize::MAX as nat,
        elem_indirect_sizes(v@, ns),
        n == cap * vstd::layout::size_of::<T>() + sum(ns),
    ensures
        v.is_indirect_size(n),
        v.is_indirect_size((n + vstd::layout::size_of::<T>()) as nat),
{
    let sz = vstd::layout::size_of::<T>();
    assert(cap * sz <= (cap + 1) * sz) by (nonlinear_arith);
    assert((cap + 1) * sz == cap * sz + sz) by (nonlinear_arith);
    assert(v.is_indirect_size(n));
    assert(v.is_indirect_size((n + sz) as nat));
}

} // verus!
