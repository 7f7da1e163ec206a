//! Round trips through the wire bytes. The bytes are written by the driver's
//! encoder and read by its decoder, and only the writing is known here, so
//! the laws are stated for every reader that undoes the writing.

use crate::encode::{lemma_wire_bytes_tell_range, wire_bytes_of, WireElement};
use crate::error::DecodeError;
use crate::inex::InExRange;
use crate::range::Range;
use crate::wire::{wire_of, wire_of_inex};
use sqlx::postgres::types::PgRange;
use std::ops::Bound;
use vstd::prelude::*;

verus! {

/// `read` undoes the writing: from the wire bytes of any wire range it gives
/// that wire range back.
pub open spec fn reads_back<T: WireElement, E>(
    read: spec_fn(Seq<u8>) -> Result<PgRange<T>, E>,
) -> bool {
    forall|w: PgRange<T>| #[trigger] read(wire_bytes_of(w.start, w.end)) == Ok::<PgRange<T>, E>(w)
}

/// The wire bytes can be read back: some reader undoes the writing.
pub proof fn lemma_wire_bytes_can_be_read_back<T: WireElement, E>()
    ensures
        exists|read: spec_fn(Seq<u8>) -> Result<PgRange<T>, E>| reads_back(read),
{
    let read = |bytes: Seq<u8>|
        Ok::<PgRange<T>, E>(
            choose|w: PgRange<T>| wire_bytes_of(w.start, w.end) == bytes,
        );
    assert forall|w: PgRange<T>| #[trigger]
        read(wire_bytes_of(w.start, w.end)) == Ok::<PgRange<T>, E>(w) by {
        let bytes = wire_bytes_of(w.start, w.end);
        let c = choose|c: PgRange<T>| wire_bytes_of(c.start, c.end) == bytes;
        lemma_wire_bytes_tell_range(c.start, c.end, w.start, w.end);
    }
    assert(reads_back(read));
}

/// Round trip of a range: whatever reader undoes the writing, decoding what
/// it makes of the bytes that encoding wrote gives the range back, whatever
/// the kinds of its bounds.
pub proof fn lemma_range_round_trip_through_bytes<T: WireElement, E>(
    read: spec_fn(Seq<u8>) -> Result<PgRange<T>, E>,
    range: Range<T>,
)
    requires
        reads_back(read),
    ensures
        Range::<T>::decoded(read(wire_bytes_of(range.start, range.end))) == Ok::<Range<T>, E>(
            range,
        ),
{
    let w = wire_of(range);
    assert(read(wire_bytes_of(w.start, w.end)) == Ok::<PgRange<T>, E>(w));
}

/// Round trip of a half-open range: whatever reader undoes the writing,
/// decoding what it makes of the bytes that encoding wrote gives the range
/// back, whatever its two values.
pub proof fn lemma_inex_round_trip_through_bytes<T: WireElement, E>(
    read: spec_fn(Seq<u8>) -> Result<PgRange<T>, E>,
    range: InExRange<T>,
)
    requires
        reads_back(read),
    ensures
        InExRange::<T>::decoded(
            read(
                wire_bytes_of(
                    Bound::Included(range.inclusive_start),
                    Bound::Excluded(range.exclusive_end),
                ),
            ),
        ) == Ok::<InExRange<T>, DecodeError<E>>(range),
{
    let w = wire_of_inex(range);
    assert(read(wire_bytes_of(w.start, w.end)) == Ok::<PgRange<T>, E>(w));
}

} // verus!
