//! Range arguments of `Shr3Ops::get_range`: the std range expressions and a
//! pair of bounds.
use core::ops::{Bound, Range, RangeFrom, RangeFull, RangeInclusive, RangeTo, RangeToInclusive};
use vstd::prelude::*;

use crate::base_ops::BaseOps;

verus! {

/// `core::ops::Bound`, with its three variants visible.
#[verifier::external_type_specification]
#[verifier::reject_recursive_types(T)]
pub struct ExBound<T>(Bound<T>);

/// `core::ops::RangeFrom` (`start..`).
#[verifier::external_type_specification]
#[verifier::reject_recursive_types(Idx)]
pub struct ExRangeFrom<Idx>(RangeFrom<Idx>);

/// `core::ops::RangeTo` (`..end`).
#[verifier::external_type_specification]
#[verifier::reject_recursive_types(Idx)]
pub struct ExRangeTo<Idx>(RangeTo<Idx>);

/// `core::ops::RangeToInclusive` (`..=end`).
#[verifier::external_type_specification]
#[verifier::reject_recursive_types(Idx)]
pub struct ExRangeToInclusive<Idx>(RangeToInclusive<Idx>);

/// `core::ops::RangeFull` (`..`).
#[verifier::external_type_specification]
pub struct ExRangeFull(RangeFull);

/// Relies on `RangeInclusive::into_inner`: for a range that has not been
/// iterated to exhaustion it hands back the lower and the (inclusive) upper
/// bound that the range was built from.
pub assume_specification<Idx>[ RangeInclusive::<Idx>::into_inner ](
    range: RangeInclusive<Idx>,
) -> (r: (Idx, Idx))
    ensures
        !range@.exhausted ==> r == (range@.start, range@.end),
;

/// The smallest value admitted by a start bound: the bound itself when it
/// is included, else the smallest value of `T`.
pub open spec fn bound_min<T: BaseOps>(start: Bound<T>) -> int {
    match start {
        Bound::Included(x) => x.int_value(),
        Bound::Excluded(_) => T::min_int(),
        Bound::Unbounded => T::min_int(),
    }
}

/// The biggest value admitted by an end bound.
pub open spec fn bound_max<T: BaseOps>(end: Bound<T>) -> int {
    match end {
        Bound::Included(x) => x.int_value(),
        Bound::Excluded(x) => x.int_value() - 1,
        Bound::Unbounded => T::max_int(),
    }
}

/// An end bound that can be turned into an inclusive one: an excluded end
/// must lie above the smallest value of `T`.
pub open spec fn end_convertible<T: BaseOps>(end: Bound<T>) -> bool {
    match end {
        Bound::Excluded(x) => x.int_value() > T::min_int(),
        _ => true,
    }
}

/// A range given to `get_range`, as a start and an end bound.
pub trait RangeArg<T> {
    /// Whether the range can be taken apart into bounds.
    spec fn spec_usable(&self) -> bool;

    /// The start and the end bound.
    spec fn spec_bounds(&self) -> (Bound<T>, Bound<T>);

    /// Takes the range apart into its start and end bound.
    fn into_bounds(self) -> (r: (Bound<T>, Bound<T>))
        requires
            self.spec_usable(),
        ensures
            r == self.spec_bounds(),
    ;
}

impl<T> RangeArg<T> for Range<T> {
    open spec fn spec_usable(&self) -> bool {
        true
    }

    open spec fn spec_bounds(&self) -> (Bound<T>, Bound<T>) {
        (Bound::Included(self.start), Bound::Excluded(self.end))
    }

    fn into_bounds(self) -> (r: (Bound<T>, Bound<T>)) {
        (Bound::Included(self.start), Bound::Excluded(self.end))
    }
}

impl<T> RangeArg<T> for RangeInclusive<T> {
    /// A range iterated to exhaustion is left out: its bounds are unspecified.
    open spec fn spec_usable(&self) -> bool {
        !self@.exhausted
    }

    open spec fn spec_bounds(&self) -> (Bound<T>, Bound<T>) {
        (Bound::Included(self@.start), Bound::Included(self@.end))
    }

    fn into_bounds(self) -> (r: (Bound<T>, Bound<T>)) {
        let (start, end) = self.into_inner();
        (Bound::Included(start), Bound::Included(end))
    }
}

impl<T> RangeArg<T> for RangeFrom<T> {
    open spec fn spec_usable(&self) -> bool {
        true
    }

    open spec fn spec_bounds(&self) -> (Bound<T>, Bound<T>) {
        (Bound::Included(self.start), Bound::Unbounded)
    }

    fn into_bounds(self) -> (r: (Bound<T>, Bound<T>)) {
        (Bound::Included(self.start), Bound::Unbounded)
    }
}

impl<T> RangeArg<T> for RangeTo<T> {
    open spec fn spec_usable(&self) -> bool {
        true
    }

    open spec fn spec_bounds(&self) -> (Bound<T>, Bound<T>) {
        (Bound::Unbounded, Bound::Excluded(self.end))
    }

    fn into_bounds(self) -> (r: (Bound<T>, Bound<T>)) {
        (Bound::Unbounded, Bound::Excluded(self.end))
    }
}

impl<T> RangeArg<T> for RangeToInclusive<T> {
    open spec fn spec_usable(&self) -> bool {
        true
    }

    open spec fn spec_bounds(&self) -> (Bound<T>, Bound<T>) {
        (Bound::Unbounded, Bound::Included(self.end))
    }

    fn into_bounds(self) -> (r: (Bound<T>, Bound<T>)) {
        (Bound::Unbounded, Bound::Included(self.end))
    }
}

impl<T> RangeArg<T> for RangeFull {
    open spec fn spec_usable(&self) -> bool {
        true
    }

    open spec fn spec_bounds(&self) -> (Bound<T>, Bound<T>) {
        (Bound::Unbounded, Bound::Unbounded)
    }

    fn into_bounds(self) -> (r: (Bound<T>, Bound<T>)) {
        (Bound::Unbounded, Bound::Unbounded)
    }
}

impl<T> RangeArg<T> for (Bound<T>, Bound<T>) {
    open spec fn spec_usable(&self) -> bool {
        true
    }

    open spec fn spec_bounds(&self) -> (Bound<T>, Bound<T>) {
        *self
    }

    fn into_bounds(self) -> (r: (Bound<T>, Bound<T>)) {
        self
    }
}

} // verus!
