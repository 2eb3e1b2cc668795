//! Ground facts about lawful total orders, stated over `cmp_spec`.
//!
//! The classification laws quantify over any ordered endpoint type `T`.
//! All they may assume of `T` is `vstd::laws_cmp::obeys_cmp::<T>()`: that
//! `Ord::cmp` agrees with its specification and that the specification is
//! a lawful total order.  The lemmas here turn that quantified predicate
//! into the pointwise facts the classification proofs need: reflexivity,
//! the flip between the two directions of a comparison, and transitivity.

use vstd::laws_cmp::obeys_cmp;
use vstd::prelude::*;
use vstd::std_specs::cmp::OrdSpec;
use std::cmp::Ordering;

verus! {

/// The outcome of comparing two values in the opposite direction:
/// `Less` and `Greater` swap, `Equal` stays.
pub open spec fn flip(o: Ordering) -> Ordering {
    match o {
        Ordering::Less => Ordering::Greater,
        Ordering::Equal => Ordering::Equal,
        Ordering::Greater => Ordering::Less,
    }
}

/// A lawful order compares every value as `Equal` to itself.
pub proof fn lemma_cmp_reflexive<T: Ord>(a: T)
    requires
        obeys_cmp::<T>(),
    ensures
        a.cmp_spec(&a) == Ordering::Equal,
{
    reveal(vstd::laws_cmp::obeys_cmp_ord);
    reveal(vstd::laws_cmp::obeys_partial_cmp_spec_properties);
}

/// Comparing in the opposite direction flips the outcome.
pub proof fn lemma_cmp_flip<T: Ord>(a: T, b: T)
    requires
        obeys_cmp::<T>(),
    ensures
        a.cmp_spec(&b) == flip(b.cmp_spec(&a)),
{
    reveal(vstd::laws_cmp::obeys_cmp_ord);
    reveal(vstd::laws_cmp::obeys_partial_cmp_spec_properties);
    reveal(vstd::laws_eq::obeys_eq_spec_properties);
}

/// Transitivity, phrased over `cmp_spec` outcomes: if `a` is at most `b`
/// and `b` is at most `c`, then `a` is at most `c`, and strictly so as
/// soon as either premise is strict.
pub proof fn lemma_cmp_le_trans<T: Ord>(a: T, b: T, c: T)
    requires
        obeys_cmp::<T>(),
        a.cmp_spec(&b) != Ordering::Greater,
        b.cmp_spec(&c) != Ordering::Greater,
    ensures
        a.cmp_spec(&c) != Ordering::Greater,
        a.cmp_spec(&b) == Ordering::Less || b.cmp_spec(&c) == Ordering::Less
            ==> a.cmp_spec(&c) == Ordering::Less,
{
    reveal(vstd::laws_cmp::obeys_cmp_ord);
    reveal(vstd::laws_cmp::obeys_partial_cmp_spec_properties);
    reveal(vstd::laws_eq::obeys_eq_spec_properties);
}

} // verus!
