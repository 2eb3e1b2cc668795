//! Allen's interval algebra over half-open intervals.
//!
//! An [`Interval`] is a pair of endpoints of a totally ordered type and
//! stands for the half-open range `[lesser, greater)`.  Classifying two
//! intervals with [`Interval::relate`] yields exactly one of the thirteen
//! [`Relation`] variants, and [`Relation::invert`] mirrors a relation to
//! the other interval's point of view.

pub mod interval;
pub mod order;
pub mod relation;

pub use interval::Interval;
pub use relation::Relation;
