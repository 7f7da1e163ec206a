//! Endpoints of a range. An endpoint is a `std::ops::Bound`: absent, or a
//! value that is itself inside or outside the range.

use std::ops::Bound;
use vstd::prelude::*;

verus! {

/// `std::ops::Bound`, with the three variants std gives it.
#[verifier::external_type_specification]
pub struct ExBound<T>(Bound<T>);

/// Cloning a bound keeps its kind and clones the value it carries, if any.
pub assume_specification<T: Clone>[ <Bound<T> as Clone>::clone ](b: &Bound<T>) -> (r: Bound<T>)
    ensures
        bound_cloned(*b, r),
;

/// How an endpoint constrains membership, without the value.
#[derive(Debug, Clone, Copy, PartialEq, Eq, Structural)]
pub enum BoundKind {
    Unbounded,
    Included,
    Excluded,
}

/// The kind of a bound.
pub open spec fn kind_of<T>(b: Bound<T>) -> BoundKind {
    match b {
        Bound::Unbounded => BoundKind::Unbounded,
        Bound::Included(_) => BoundKind::Included,
        Bound::Excluded(_) => BoundKind::Excluded,
    }
}

/// The value a bound carries, if it carries one.
pub open spec fn value_of<T>(b: Bound<T>) -> Option<T> {
    match b {
        Bound::Unbounded => None,
        Bound::Included(v) => Some(v),
        Bound::Excluded(v) => Some(v),
    }
}

/// The same bound around the image of its value under `f`.
pub open spec fn mapped<T, U>(b: Bound<T>, f: spec_fn(T) -> U) -> Bound<U> {
    match b {
        Bound::Unbounded => Bound::Unbounded,
        Bound::Included(v) => Bound::Included(f(v)),
        Bound::Excluded(v) => Bound::Excluded(f(v)),
    }
}

/// `r` is what cloning `b` may give: the same kind, around a clone of the value.
pub open spec fn bound_cloned<T: Clone>(b: Bound<T>, r: Bound<T>) -> bool {
    &&& kind_of(r) == kind_of(b)
    &&& value_of(b) matches Some(x) ==> value_of(r) matches Some(y) && cloned::<T>(x, y)
}

/// The same bound, borrowing its value.
pub open spec fn borrowed<T>(b: &Bound<T>) -> Bound<&T> {
    match b {
        Bound::Unbounded => Bound::Unbounded,
        Bound::Included(v) => Bound::Included(v),
        Bound::Excluded(v) => Bound::Excluded(v),
    }
}

/// Tells the kind of a bound.
pub fn kind<T>(b: &Bound<T>) -> (k: BoundKind)
    ensures
        k == kind_of(*b),
{
    match b {
        Bound::Unbounded => BoundKind::Unbounded,
        Bound::Included(_) => BoundKind::Included,
        Bound::Excluded(_) => BoundKind::Excluded,
    }
}

/// Re-tags a bound so that it borrows its value instead of owning it.
pub fn as_ref<T>(b: &Bound<T>) -> (r: Bound<&T>)
    ensures
        r == borrowed(b),
{
    match b {
        Bound::Unbounded => Bound::Unbounded,
        Bound::Included(v) => Bound::Included(v),
        Bound::Excluded(v) => Bound::Excluded(v),
    }
}

} // verus!
