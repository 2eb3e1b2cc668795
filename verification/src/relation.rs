//! The thirteen relations of Allen's interval algebra, with their inversion.

use vstd::prelude::*;

verus! {

/// One of the thirteen qualitative relations that can hold between two
/// half-open intervals over a totally ordered type.  The variants are
/// pairwise disjoint and jointly exhaustive: classifying any two
/// well-formed intervals yields exactly one of them.
#[derive(Clone, Debug, PartialEq, Eq, Structural)]
pub enum Relation {
    Before,
    Meets,
    Overlaps,
    FinishedBy,
    Contains,
    Starts,
    Equal,
    StartedBy,
    During,
    Finishes,
    OverlappedBy,
    MetBy,
    After,
}

impl Relation {
    /// The mirror of a relation: the relation as seen from the other
    /// interval's point of view.  `Equal` is the only fixed point.
    pub open spec fn invert_spec(self) -> Relation {
        match self {
            Relation::After => Relation::Before,
            Relation::Before => Relation::After,
            Relation::Contains => Relation::During,
            Relation::During => Relation::Contains,
            Relation::Equal => Relation::Equal,
            Relation::FinishedBy => Relation::Finishes,
            Relation::Finishes => Relation::FinishedBy,
            Relation::Meets => Relation::MetBy,
            Relation::MetBy => Relation::Meets,
            Relation::OverlappedBy => Relation::Overlaps,
            Relation::Overlaps => Relation::OverlappedBy,
            Relation::StartedBy => Relation::Starts,
            Relation::Starts => Relation::StartedBy,
        }
    }

    /// Inverts the relation: if `x.relate(&y)` is `self`, the result is the
    /// relation of `y` to `x`.  The mapping is total over the closed set of
    /// thirteen variants; no variant falls through to a default.
    pub fn invert(&self) -> (r: Self)
        ensures
            r == self.invert_spec(),
    {
        match self {
            Relation::After => Relation::Before,
            Relation::Before => Relation::After,
            Relation::Contains => Relation::During,
            Relation::During => Relation::Contains,
            Relation::Equal => Relation::Equal,
            Relation::FinishedBy => Relation::Finishes,
            Relation::Finishes => Relation::FinishedBy,
            Relation::Meets => Relation::MetBy,
            Relation::MetBy => Relation::Meets,
            Relation::OverlappedBy => Relation::Overlaps,
            Relation::Overlaps => Relation::OverlappedBy,
            Relation::StartedBy => Relation::Starts,
            Relation::Starts => Relation::StartedBy,
        }
    }
}

/// Involution: inverting a relation twice returns the original relation,
/// for every one of the thirteen variants.
pub proof fn lemma_invert_involution(r: Relation)
    ensures
        r.invert_spec().invert_spec() == r,
{
}

} // verus!
