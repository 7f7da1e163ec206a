//! The general range: two bounds, each independently absent, inclusive or
//! exclusive.

use crate::bound::{as_ref, borrowed};
use std::ops::{Bound, RangeBounds, RangeFrom, RangeInclusive, RangeTo, RangeToInclusive};
use vstd::prelude::*;
use vstd::std_specs::convert::FromSpecImpl;

verus! {

/// `std::ops::RangeFrom`, the shape of `a..`.
#[verifier::external_type_specification]
pub struct ExRangeFrom<Idx>(RangeFrom<Idx>);

/// `std::ops::RangeTo`, the shape of `..b`.
#[verifier::external_type_specification]
pub struct ExRangeTo<Idx>(RangeTo<Idx>);

/// `std::ops::RangeToInclusive`, the shape of `..=b`.
#[verifier::external_type_specification]
pub struct ExRangeToInclusive<Idx>(RangeToInclusive<Idx>);

/// `RangeInclusive::into_inner` hands out the two endpoints the range was
/// made of, lower first.
pub assume_specification<Idx>[ RangeInclusive::<Idx>::into_inner ](
    r: RangeInclusive<Idx>,
) -> (ends: (Idx, Idx))
    ensures
        ends.0 == r@.start,
        ends.1 == r@.end,
;

/// A range given by its two bounds. Nothing relates the two: a range whose
/// start lies after its end is a value like any other.
#[derive(Debug, PartialEq, Eq, Clone)]
pub struct Range<T> {
    pub start: Bound<T>,
    pub end: Bound<T>,
}

impl<T> From<[Bound<T>; 2]> for Range<T> {
    fn from(v: [Bound<T>; 2]) -> (r: Self)
        ensures
            r.start == v@[0],
            r.end == v@[1],
    {
        let mut v = v;
        let mut start = Bound::Unbounded;
        let mut end = Bound::Unbounded;
        std::mem::swap(&mut v[0], &mut start);
        std::mem::swap(&mut v[1], &mut end);
        Range { start, end }
    }
}

impl<T> FromSpecImpl<[Bound<T>; 2]> for Range<T> {
    open spec fn obeys_from_spec() -> bool {
        true
    }

    open spec fn from_spec(v: [Bound<T>; 2]) -> Self {
        Range { start: v@[0], end: v@[1] }
    }
}

impl<T> From<(Bound<T>, Bound<T>)> for Range<T> {
    fn from(v: (Bound<T>, Bound<T>)) -> (r: Self)
        ensures
            r.start == v.0,
            r.end == v.1,
    {
        Range { start: v.0, end: v.1 }
    }
}

impl<T> FromSpecImpl<(Bound<T>, Bound<T>)> for Range<T> {
    open spec fn obeys_from_spec() -> bool {
        true
    }

    open spec fn from_spec(v: (Bound<T>, Bound<T>)) -> Self {
        Range { start: v.0, end: v.1 }
    }
}

impl<T> From<std::ops::Range<T>> for Range<T> {
    fn from(v: std::ops::Range<T>) -> (r: Self)
        ensures
            r.start == Bound::Included(v.start),
            r.end == Bound::Excluded(v.end),
    {
        Range { start: Bound::Included(v.start), end: Bound::Excluded(v.end) }
    }
}

impl<T> FromSpecImpl<std::ops::Range<T>> for Range<T> {
    open spec fn obeys_from_spec() -> bool {
        true
    }

    open spec fn from_spec(v: std::ops::Range<T>) -> Self {
        Range { start: Bound::Included(v.start), end: Bound::Excluded(v.end) }
    }
}

impl<T> From<RangeFrom<T>> for Range<T> {
    fn from(v: RangeFrom<T>) -> (r: Self)
        ensures
            r.start == Bound::Included(v.start),
            r.end == Bound::<T>::Unbounded,
    {
        Range { start: Bound::Included(v.start), end: Bound::Unbounded }
    }
}

impl<T> FromSpecImpl<RangeFrom<T>> for Range<T> {
    open spec fn obeys_from_spec() -> bool {
        true
    }

    open spec fn from_spec(v: RangeFrom<T>) -> Self {
        Range { start: Bound::Included(v.start), end: Bound::Unbounded }
    }
}

impl<T> From<RangeInclusive<T>> for Range<T> {
    fn from(v: RangeInclusive<T>) -> (r: Self)
        ensures
            r.start == Bound::Included(v@.start),
            r.end == Bound::Included(v@.end),
    {
        let (start, end) = v.into_inner();
        Range { start: Bound::Included(start), end: Bound::Included(end) }
    }
}

impl<T> FromSpecImpl<RangeInclusive<T>> for Range<T> {
    open spec fn obeys_from_spec() -> bool {
        true
    }

    open spec fn from_spec(v: RangeInclusive<T>) -> Self {
        Range { start: Bound::Included(v@.start), end: Bound::Included(v@.end) }
    }
}

impl<T> From<RangeTo<T>> for Range<T> {
    fn from(v: RangeTo<T>) -> (r: Self)
        ensures
            r.start == Bound::<T>::Unbounded,
            r.end == Bound::Excluded(v.end),
    {
        Range { start: Bound::Unbounded, end: Bound::Excluded(v.end) }
    }
}

impl<T> FromSpecImpl<RangeTo<T>> for Range<T> {
    open spec fn obeys_from_spec() -> bool {
        true
    }

    open spec fn from_spec(v: RangeTo<T>) -> Self {
        Range { start: Bound::Unbounded, end: Bound::Excluded(v.end) }
    }
}

impl<T> From<RangeToInclusive<T>> for Range<T> {
    fn from(v: RangeToInclusive<T>) -> (r: Self)
        ensures
            r.start == Bound::<T>::Unbounded,
            r.end == Bound::Included(v.end),
    {
        Range { start: Bound::Unbounded, end: Bound::Included(v.end) }
    }
}

impl<T> FromSpecImpl<RangeToInclusive<T>> for Range<T> {
    open spec fn obeys_from_spec() -> bool {
        true
    }

    open spec fn from_spec(v: RangeToInclusive<T>) -> Self {
        Range { start: Bound::Unbounded, end: Bound::Included(v.end) }
    }
}

impl<T> RangeBounds<T> for Range<T> {
    fn start_bound(&self) -> (b: Bound<&T>)
        ensures
            b == borrowed(&self.start),
    {
        as_ref(&self.start)
    }

    fn end_bound(&self) -> (b: Bound<&T>)
        ensures
            b == borrowed(&self.end),
    {
        as_ref(&self.end)
    }
}

} // verus!
