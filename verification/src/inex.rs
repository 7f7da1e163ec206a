//! The half-open range: an inclusive start and an exclusive end, with no
//! bound tags to carry because the shape is fixed by the type.

use vstd::prelude::*;
use vstd::std_specs::convert::FromSpecImpl;

verus! {

/// A range that includes its start and excludes its end. Nothing relates the
/// two values: whether the start precedes the end is up to the caller.
#[derive(Debug, PartialEq, Eq, Clone)]
pub struct InExRange<T> {
    pub inclusive_start: T,
    pub exclusive_end: T,
}

impl<T> From<InExRange<T>> for std::ops::Range<T> {
    fn from(x: InExRange<T>) -> (r: Self)
        ensures
            r.start == x.inclusive_start,
            r.end == x.exclusive_end,
    {
        x.inclusive_start..x.exclusive_end
    }
}

impl<T> FromSpecImpl<InExRange<T>> for std::ops::Range<T> {
    open spec fn obeys_from_spec() -> bool {
        true
    }

    open spec fn from_spec(x: InExRange<T>) -> Self {
        std::ops::Range { start: x.inclusive_start, end: x.exclusive_end }
    }
}

} // verus!
