//! Half-open intervals and their classification under Allen's algebra.

use crate::order::flip;
use crate::order::lemma_cmp_flip;
use crate::order::lemma_cmp_le_trans;
use crate::order::lemma_cmp_reflexive;
use crate::relation::Relation;
use vstd::laws_cmp::obeys_cmp;
use vstd::prelude::*;
use vstd::std_specs::cmp::OrdSpec;
use std::cmp::Ordering;

verus! {

/// The half-open interval `[lesser, greater)` over a totally ordered type.
///
/// An interval is well-formed when `lesser <= greater`; it is empty when
/// the two endpoints compare as equal.  Construction does not check
/// well-formedness: an interval with `lesser > greater` can be built and
/// classified without failing, but the classification laws are only
/// stated for well-formed intervals.
#[derive(Clone, Debug)]
pub struct Interval<T: Ord> {
    pub lesser: T,
    pub greater: T,
}

/// The decision table of the algebra: it maps the four pairwise endpoint
/// comparisons of `x = [lx, gx)` against `y = [ly, gy)` to the one
/// relation that holds.  The arguments are `lxly = cmp(lx, ly)`,
/// `lxgy = cmp(lx, gy)`, `gxly = cmp(gx, ly)` and `gxgy = cmp(gx, gy)`,
/// and the rules are tried first to last: ties at endpoints take
/// precedence over the strict comparisons below them.
pub open spec fn relation_of_comparisons(
    lxly: Ordering,
    lxgy: Ordering,
    gxly: Ordering,
    gxgy: Ordering,
) -> Relation {
    match (lxly, lxgy, gxly, gxgy) {
        (Ordering::Equal, _, _, Ordering::Equal) => Relation::Equal,
        (_, _, Ordering::Less, _) => Relation::Before,
        (Ordering::Less, _, Ordering::Equal, Ordering::Less) => Relation::Meets,
        (_, _, Ordering::Equal, _) => Relation::Overlaps,
        (Ordering::Greater, Ordering::Equal, _, Ordering::Greater) => Relation::MetBy,
        (_, Ordering::Equal, _, _) => Relation::OverlappedBy,
        (_, Ordering::Greater, _, _) => Relation::After,
        (Ordering::Less, _, _, Ordering::Less) => Relation::Overlaps,
        (Ordering::Less, _, _, Ordering::Equal) => Relation::FinishedBy,
        (Ordering::Less, _, _, Ordering::Greater) => Relation::Contains,
        (Ordering::Equal, _, _, Ordering::Less) => Relation::Starts,
        (Ordering::Equal, _, _, Ordering::Greater) => Relation::StartedBy,
        (Ordering::Greater, _, _, Ordering::Less) => Relation::During,
        (Ordering::Greater, _, _, Ordering::Equal) => Relation::Finishes,
        (Ordering::Greater, _, _, Ordering::Greater) => Relation::OverlappedBy,
    }
}

impl<T: Ord> Interval<T> {
    /// Well-formedness: the lower endpoint is at most the upper one.
    pub open spec fn well_formed(self) -> bool {
        self.lesser.cmp_spec(&self.greater) != Ordering::Greater
    }

    /// Emptiness: the two endpoints compare as equal, so the half-open
    /// range `[lesser, greater)` holds no value.
    pub open spec fn is_empty_spec(self) -> bool {
        self.lesser.cmp_spec(&self.greater) == Ordering::Equal
    }

    /// The relation of `self` to `y`, as the decision table assigns it to
    /// the four pairwise endpoint comparisons.
    pub open spec fn relate_spec(self, y: Interval<T>) -> Relation {
        relation_of_comparisons(
            self.lesser.cmp_spec(&y.lesser),
            self.lesser.cmp_spec(&y.greater),
            self.greater.cmp_spec(&y.lesser),
            self.greater.cmp_spec(&y.greater),
        )
    }

    /// Wraps the two endpoints verbatim.  Nothing is validated: callers
    /// are expected to supply `lesser <= greater`, and the classification
    /// laws assume they did.
    pub fn new(lesser: T, greater: T) -> (r: Self)
        ensures
            r.lesser == lesser,
            r.greater == greater,
    {
        Self { lesser, greater }
    }

    /// Classifies the relation of `self` to `y`: the one variant that the
    /// decision table assigns to the four pairwise endpoint comparisons.
    /// Classification is total; it never fails, empty intervals included.
    pub fn relate(&self, y: &Self) -> (r: Relation)
        ensures
            T::obeys_cmp_spec() ==> r == self.relate_spec(*y),
    {
        let lxly = self.lesser.cmp(&y.lesser);
        let lxgy = self.lesser.cmp(&y.greater);
        let gxly = self.greater.cmp(&y.lesser);
        let gxgy = self.greater.cmp(&y.greater);
        match (lxly, lxgy, gxly, gxgy) {
            (Ordering::Equal, _, _, Ordering::Equal) => Relation::Equal,
            (_, _, Ordering::Less, _) => Relation::Before,
            (Ordering::Less, _, Ordering::Equal, Ordering::Less) => Relation::Meets,
            (_, _, Ordering::Equal, _) => Relation::Overlaps,
            (Ordering::Greater, Ordering::Equal, _, Ordering::Greater) => Relation::MetBy,
            (_, Ordering::Equal, _, _) => Relation::OverlappedBy,
            (_, Ordering::Greater, _, _) => Relation::After,
            (Ordering::Less, _, _, Ordering::Less) => Relation::Overlaps,
            (Ordering::Less, _, _, Ordering::Equal) => Relation::FinishedBy,
            (Ordering::Less, _, _, Ordering::Greater) => Relation::Contains,
            (Ordering::Equal, _, _, Ordering::Less) => Relation::Starts,
            (Ordering::Equal, _, _, Ordering::Greater) => Relation::StartedBy,
            (Ordering::Greater, _, _, Ordering::Less) => Relation::During,
            (Ordering::Greater, _, _, Ordering::Equal) => Relation::Finishes,
            (Ordering::Greater, _, _, Ordering::Greater) => Relation::OverlappedBy,
        }
    }

    /// True iff the two endpoints compare as equal.  No other notion of
    /// emptiness is checked: an interval with `lesser > greater` is not
    /// empty by this test.
    pub fn is_empty(&self) -> (r: bool)
        ensures
            T::obeys_cmp_spec() ==> r == self.is_empty_spec(),
    {
        matches!(self.lesser.cmp(&self.greater), Ordering::Equal)
    }

    /// The exact negation of [`Interval::is_empty`], for every input.
    pub fn is_non_empty(&self) -> (r: bool)
        ensures
            T::obeys_cmp_spec() ==> r == !self.is_empty_spec(),
    {
        !self.is_empty()
    }
}

/// Reflexivity: every interval, well-formed or not, relates to itself as
/// `Equal`.
pub proof fn lemma_relate_reflexive<T: Ord>(x: Interval<T>)
    requires
        obeys_cmp::<T>(),
    ensures
        x.relate_spec(x) == Relation::Equal,
{
    lemma_cmp_reflexive(x.lesser);
    lemma_cmp_reflexive(x.greater);
}

/// Symmetry: swapping the two intervals mirrors the relation.  For all
/// well-formed intervals `x` and `y`, the inverse of `x`'s relation to
/// `y` is `y`'s relation to `x`.
pub proof fn lemma_relate_symmetric<T: Ord>(x: Interval<T>, y: Interval<T>)
    requires
        obeys_cmp::<T>(),
        x.well_formed(),
        y.well_formed(),
    ensures
        x.relate_spec(y).invert_spec() == y.relate_spec(x),
{
    let lxly = x.lesser.cmp_spec(&y.lesser);
    let lxgy = x.lesser.cmp_spec(&y.greater);
    let gxly = x.greater.cmp_spec(&y.lesser);
    let gxgy = x.greater.cmp_spec(&y.greater);
    // The four comparisons that classify y against x are the flips of the
    // four that classify x against y.
    lemma_cmp_flip(y.lesser, x.lesser);
    lemma_cmp_flip(y.lesser, x.greater);
    lemma_cmp_flip(y.greater, x.lesser);
    lemma_cmp_flip(y.greater, x.greater);
    assert(y.relate_spec(x) == relation_of_comparisons(
        flip(lxly),
        flip(gxly),
        flip(lxgy),
        flip(gxgy),
    ));
    // Not every tuple of four comparisons can arise from two well-formed
    // intervals; the table is only symmetric over those that can.  The
    // transitivity instances below pin the reachable tuples down.
    if gxly != Ordering::Greater {
        lemma_cmp_le_trans(x.lesser, x.greater, y.lesser);
        lemma_cmp_le_trans(x.greater, y.lesser, y.greater);
        lemma_cmp_le_trans(x.lesser, x.greater, y.greater);
    }
    if flip(lxgy) != Ordering::Greater {
        lemma_cmp_le_trans(y.lesser, y.greater, x.lesser);
        lemma_cmp_le_trans(y.greater, x.lesser, x.greater);
        lemma_cmp_le_trans(y.lesser, y.greater, x.greater);
    }
    if lxly != Ordering::Greater {
        lemma_cmp_le_trans(x.lesser, y.lesser, y.greater);
    }
    if flip(lxly) != Ordering::Greater {
        lemma_cmp_le_trans(y.lesser, x.lesser, x.greater);
    }
    if gxgy != Ordering::Greater {
        lemma_cmp_le_trans(x.lesser, x.greater, y.greater);
    }
    if flip(gxgy) != Ordering::Greater {
        lemma_cmp_le_trans(y.lesser, y.greater, x.greater);
    }
}

/// The meaning of each relation for two non-empty well-formed intervals
/// `x = [x.lesser, x.greater)` and `y = [y.lesser, y.greater)`: each
/// variant holds exactly when its endpoint condition does.  Since the
/// thirteen conditions on the right-hand sides are stated independently
/// of the decision table, this shows the table has no gaps and no
/// overlapping rules over such intervals: exactly one condition is true
/// of any pair, and the table picks that one.
pub proof fn lemma_relate_characterized<T: Ord>(x: Interval<T>, y: Interval<T>)
    requires
        obeys_cmp::<T>(),
        x.well_formed(),
        y.well_formed(),
        !x.is_empty_spec(),
        !y.is_empty_spec(),
    ensures
        x.relate_spec(y) == Relation::Before <==> x.greater.cmp_spec(&y.lesser)
            == Ordering::Less,
        x.relate_spec(y) == Relation::Meets <==> x.greater.cmp_spec(&y.lesser)
            == Ordering::Equal,
        x.relate_spec(y) == Relation::Overlaps <==> x.lesser.cmp_spec(&y.lesser)
            == Ordering::Less && x.greater.cmp_spec(&y.lesser) == Ordering::Greater
            && x.greater.cmp_spec(&y.greater) == Ordering::Less,
        x.relate_spec(y) == Relation::FinishedBy <==> x.lesser.cmp_spec(&y.lesser)
            == Ordering::Less && x.greater.cmp_spec(&y.greater) == Ordering::Equal,
        x.relate_spec(y) == Relation::Contains <==> x.lesser.cmp_spec(&y.lesser)
            == Ordering::Less && x.greater.cmp_spec(&y.greater) == Ordering::Greater,
        x.relate_spec(y) == Relation::Starts <==> x.lesser.cmp_spec(&y.lesser)
            == Ordering::Equal && x.greater.cmp_spec(&y.greater) == Ordering::Less,
        x.relate_spec(y) == Relation::Equal <==> x.lesser.cmp_spec(&y.lesser)
            == Ordering::Equal && x.greater.cmp_spec(&y.greater) == Ordering::Equal,
        x.relate_spec(y) == Relation::StartedBy <==> x.lesser.cmp_spec(&y.lesser)
            == Ordering::Equal && x.greater.cmp_spec(&y.greater) == Ordering::Greater,
        x.relate_spec(y) == Relation::During <==> x.lesser.cmp_spec(&y.lesser)
            == Ordering::Greater && x.greater.cmp_spec(&y.greater) == Ordering::Less,
        x.relate_spec(y) == Relation::Finishes <==> x.lesser.cmp_spec(&y.lesser)
            == Ordering::Greater && x.greater.cmp_spec(&y.greater) == Ordering::Equal,
        x.relate_spec(y) == Relation::OverlappedBy <==> x.lesser.cmp_spec(&y.lesser)
            == Ordering::Greater && x.lesser.cmp_spec(&y.greater) == Ordering::Less
            && x.greater.cmp_spec(&y.greater) == Ordering::Greater,
        x.relate_spec(y) == Relation::MetBy <==> x.lesser.cmp_spec(&y.greater)
            == Ordering::Equal,
        x.relate_spec(y) == Relation::After <==> x.lesser.cmp_spec(&y.greater)
            == Ordering::Greater,
{
    let lxly = x.lesser.cmp_spec(&y.lesser);
    let lxgy = x.lesser.cmp_spec(&y.greater);
    let gxly = x.greater.cmp_spec(&y.lesser);
    let gxgy = x.greater.cmp_spec(&y.greater);
    lemma_cmp_flip(y.lesser, x.lesser);
    lemma_cmp_flip(y.lesser, x.greater);
    lemma_cmp_flip(y.greater, x.lesser);
    lemma_cmp_flip(y.greater, x.greater);
    // A non-empty well-formed interval has lesser strictly below greater;
    // the transitivity instances below leave only one reachable tuple of
    // comparisons for each of the thirteen relations.
    if gxly != Ordering::Greater {
        lemma_cmp_le_trans(x.lesser, x.greater, y.lesser);
        lemma_cmp_le_trans(x.greater, y.lesser, y.greater);
        lemma_cmp_le_trans(x.lesser, x.greater, y.greater);
    }
    if flip(lxgy) != Ordering::Greater {
        lemma_cmp_le_trans(y.lesser, y.greater, x.lesser);
        lemma_cmp_le_trans(y.greater, x.lesser, x.greater);
        lemma_cmp_le_trans(y.lesser, y.greater, x.greater);
    }
    if lxly != Ordering::Greater {
        lemma_cmp_le_trans(x.lesser, y.lesser, y.greater);
    }
    if flip(lxly) != Ordering::Greater {
        lemma_cmp_le_trans(y.lesser, x.lesser, x.greater);
    }
    if gxgy != Ordering::Greater {
        lemma_cmp_le_trans(x.lesser, x.greater, y.greater);
    }
    if flip(gxgy) != Ordering::Greater {
        lemma_cmp_le_trans(y.lesser, y.greater, x.greater);
    }
}

} // verus!
