//! The range value of the Postgres wire protocol, as the driver models it,
//! and the mapping between it and the range types of this crate.

use crate::bound::{bound_cloned, kind, kind_of, BoundKind};
use crate::error::{DecodeError, ShapeError};
use crate::inex::InExRange;
use crate::range::Range;
use sqlx::postgres::types::PgRange;
use std::ops::Bound;
use vstd::prelude::*;
use vstd::std_specs::convert::{FromSpec, FromSpecImpl};

verus! {

/// The driver's range value: a start bound and an end bound, both public.
#[verifier::external_type_specification]
pub struct ExPgRange<T>(PgRange<T>);

/// The wire range with the bounds of `range`, tags and values unchanged.
pub open spec fn wire_of<T>(range: Range<T>) -> PgRange<T> {
    PgRange { start: range.start, end: range.end }
}

/// The wire range of a half-open range: its start included, its end excluded.
pub open spec fn wire_of_inex<T>(range: InExRange<T>) -> PgRange<T> {
    PgRange {
        start: Bound::Included(range.inclusive_start),
        end: Bound::Excluded(range.exclusive_end),
    }
}

/// The range with the bounds of `wire`, tags and values unchanged.
pub open spec fn range_of<T>(wire: PgRange<T>) -> Range<T> {
    Range { start: wire.start, end: wire.end }
}

/// A wire range has the canonical shape when its start is included and its
/// end is excluded.
pub open spec fn is_canonical<T>(wire: PgRange<T>) -> bool {
    kind_of(wire.start) == BoundKind::Included && kind_of(wire.end) == BoundKind::Excluded
}

/// The half-open range that a wire range stands for, or the kinds of its
/// bounds where they are not those of the canonical shape.
pub open spec fn inex_of<T>(wire: PgRange<T>) -> Result<InExRange<T>, ShapeError> {
    match (wire.start, wire.end) {
        (Bound::Included(a), Bound::Excluded(b)) => Ok(
            InExRange { inclusive_start: a, exclusive_end: b },
        ),
        _ => Err(ShapeError { start: kind_of(wire.start), end: kind_of(wire.end) }),
    }
}

impl<T> From<Range<T>> for PgRange<T> {
    fn from(range: Range<T>) -> (wire: Self)
        ensures
            wire == wire_of(range),
    {
        PgRange { start: range.start, end: range.end }
    }
}

impl<T> FromSpecImpl<Range<T>> for PgRange<T> {
    open spec fn obeys_from_spec() -> bool {
        true
    }

    open spec fn from_spec(range: Range<T>) -> Self {
        wire_of(range)
    }
}

impl<T> From<InExRange<T>> for PgRange<T> {
    fn from(range: InExRange<T>) -> (wire: Self)
        ensures
            wire == wire_of_inex(range),
    {
        PgRange {
            start: Bound::Included(range.inclusive_start),
            end: Bound::Excluded(range.exclusive_end),
        }
    }
}

impl<T> FromSpecImpl<InExRange<T>> for PgRange<T> {
    open spec fn obeys_from_spec() -> bool {
        true
    }

    open spec fn from_spec(range: InExRange<T>) -> Self {
        wire_of_inex(range)
    }
}

impl<T: Clone> Range<T> {
    /// The wire range with clones of the two bounds: the same tags, around
    /// clones of the values.
    pub fn to_wire(&self) -> (wire: PgRange<T>)
        ensures
            bound_cloned(self.start, wire.start),
            bound_cloned(self.end, wire.end),
    {
        PgRange { start: self.start.clone(), end: self.end.clone() }
    }
}

impl<T: Clone> InExRange<T> {
    /// The wire range of the canonical shape: a clone of the start, included,
    /// and a clone of the end, excluded.
    pub fn to_wire(&self) -> (wire: PgRange<T>)
        ensures
            wire.start matches Bound::Included(a) && cloned::<T>(self.inclusive_start, a),
            wire.end matches Bound::Excluded(b) && cloned::<T>(self.exclusive_end, b),
    {
        PgRange {
            start: Bound::Included(self.inclusive_start.clone()),
            end: Bound::Excluded(self.exclusive_end.clone()),
        }
    }
}

impl<T> Range<T> {
    /// What `decode` makes of the driver's answer.
    pub open spec fn decoded<E>(answer: Result<PgRange<T>, E>) -> Result<Range<T>, E> {
        match answer {
            Ok(wire) => Ok(range_of(wire)),
            Err(e) => Err(e),
        }
    }

    /// Finishes a decode. `answer` is what the driver's range decoder made of
    /// the payload: its failure is handed on as it is, and a wire range becomes
    /// the range with the same two bounds.
    pub fn decode<E>(answer: Result<PgRange<T>, E>) -> (r: Result<Range<T>, E>)
        ensures
            r == Self::decoded(answer),
    {
        match answer {
            Ok(wire) => Ok(Range { start: wire.start, end: wire.end }),
            Err(e) => Err(e),
        }
    }
}

impl<T> InExRange<T> {
    /// What `decode` makes of the driver's answer.
    pub open spec fn decoded<E>(answer: Result<PgRange<T>, E>) -> Result<
        InExRange<T>,
        DecodeError<E>,
    > {
        match answer {
            Ok(wire) => match inex_of(wire) {
                Ok(range) => Ok(range),
                Err(shape) => Err(DecodeError::NonCanonical(shape)),
            },
            Err(e) => Err(DecodeError::Malformed(e)),
        }
    }

    /// Finishes a decode. `answer` is what the driver's range decoder made of
    /// the payload. Its failure comes back as `Malformed`. A wire range with an
    /// included start and an excluded end becomes the half-open range of the
    /// two values; one of any other shape is refused as `NonCanonical`, with
    /// the kinds of its two bounds.
    pub fn decode<E>(answer: Result<PgRange<T>, E>) -> (r: Result<InExRange<T>, DecodeError<E>>)
        ensures
            r == Self::decoded(answer),
            r is Ok <==> (answer matches Ok(wire) && is_canonical(wire)),
    {
        match answer {
            Ok(wire) => match (wire.start, wire.end) {
                (Bound::Included(a), Bound::Excluded(b)) => Ok(
                    InExRange { inclusive_start: a, exclusive_end: b },
                ),
                (start, end) => Err(
                    DecodeError::NonCanonical(ShapeError { start: kind(&start), end: kind(&end) }),
                ),
            },
            Err(e) => Err(DecodeError::Malformed(e)),
        }
    }
}

/// A range that becomes a wire range and is decoded from it is the range it
/// was, whatever the kinds of its bounds. The way of the wire range through
/// bytes is the subject of `round_trip`.
pub proof fn lemma_range_round_trip<T, E>(range: Range<T>)
    ensures
        Range::<T>::decoded::<E>(Ok(wire_of(range))) == Ok::<Range<T>, E>(range),
{
}

/// A half-open range that becomes a wire range and is decoded from it is the
/// range it was, whatever its two values. The way of the wire range through
/// bytes is the subject of `round_trip`.
pub proof fn lemma_inex_round_trip<T, E>(range: InExRange<T>)
    ensures
        is_canonical(wire_of_inex(range)),
        InExRange::<T>::decoded::<E>(Ok(wire_of_inex(range))) == Ok::<
            InExRange<T>,
            DecodeError<E>,
        >(range),
{
}

/// A wire range of any shape but the canonical one is refused when read as a
/// half-open range, and the error tells the kinds of its two bounds.
pub proof fn lemma_inex_refuses_other_shapes<T, E>(wire: PgRange<T>)
    requires
        !is_canonical(wire),
    ensures
        InExRange::<T>::decoded::<E>(Ok(wire)) == Err::<InExRange<T>, DecodeError<E>>(
            DecodeError::NonCanonical(
                ShapeError { start: kind_of(wire.start), end: kind_of(wire.end) },
            ),
        ),
{
}

/// A half-open range goes to the wire as the general range made from its
/// interval does.
pub proof fn lemma_inex_wire_is_interval_wire<T>(range: InExRange<T>)
    ensures
        wire_of_inex(range) == wire_of(
            <Range<T> as FromSpec<std::ops::Range<T>>>::from_spec(
                <std::ops::Range<T> as FromSpec<InExRange<T>>>::from_spec(range),
            ),
        ),
{
}

} // verus!
