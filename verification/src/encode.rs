//! Writing ranges to the wire. The driver's encoder does the writing; the
//! contracts here say which bytes arrive in its buffer.

use crate::bound::{mapped, BoundKind};
use crate::format::{
    frameable, int4_bytes, int4range_wire, int8_bytes, int8range_wire, lemma_flags_byte_is_sum,
    lemma_int4_bytes_injective, lemma_int8_bytes_injective, lemma_range_wire_injective,
    range_wire,
};
use crate::inex::InExRange;
use crate::range::Range;
use sqlx::encode::IsNull;
use sqlx::postgres::types::PgRange;
use sqlx::postgres::PgArgumentBuffer;
use sqlx::Encode;
use std::ops::Bound;
use vstd::prelude::*;

verus! {

/// The driver's buffer of encoded query arguments.
#[verifier::external_type_specification]
#[verifier::external_body]
pub struct ExPgArgumentBuffer(PgArgumentBuffer);

/// The driver's answer to "was a null written?".
#[verifier::external_type_specification]
pub struct ExIsNull(IsNull);

/// The bytes that an argument buffer holds, in the order they were written.
pub uninterp spec fn buffer_bytes(buf: PgArgumentBuffer) -> Seq<u8>;

/// `<PgRange<i32> as Encode<Postgres>>::encode_by_ref`. Trusted: the driver
/// appends to the buffer the flags byte of the two bounds and then, for each
/// bound that has a value, the length 4 and the value, both big-endian; what
/// the buffer held before stays in front. It reports that no null was written.
#[verifier::external_body]
fn encode_int4range(wire: &PgRange<i32>, buf: &mut PgArgumentBuffer) -> (is_null: IsNull)
    ensures
        buffer_bytes(*final(buf)) == buffer_bytes(*old(buf)) + int4range_wire(
            wire.start,
            wire.end,
        ),
        is_null == IsNull::No,
{
    wire.encode_by_ref(buf)
}

/// `<PgRange<i64> as Encode<Postgres>>::encode_by_ref`. Trusted: the driver
/// appends to the buffer the flags byte of the two bounds and then, for each
/// bound that has a value, the length 8 and the value, both big-endian; what
/// the buffer held before stays in front. It reports that no null was written.
#[verifier::external_body]
fn encode_int8range(wire: &PgRange<i64>, buf: &mut PgArgumentBuffer) -> (is_null: IsNull)
    ensures
        buffer_bytes(*final(buf)) == buffer_bytes(*old(buf)) + int8range_wire(
            wire.start,
            wire.end,
        ),
        is_null == IsNull::No,
{
    wire.encode_by_ref(buf)
}

/// An element type whose ranges go to the wire in a known way: what a value
/// looks like there, that its bytes tell the value, and the call that writes
/// a range of such values.
pub trait WireElement: Copy {
    /// The bytes of a value on the wire.
    spec fn wire_bytes(self) -> Seq<u8>;

    /// Two values with the same bytes are the same value.
    proof fn lemma_bytes_tell_value(a: Self, b: Self)
        requires
            a.wire_bytes() == b.wire_bytes(),
        ensures
            a == b,
    ;

    /// The bytes of a value are few enough for the length of a frame.
    proof fn lemma_bytes_fit_frame(self)
        ensures
            self.wire_bytes().len() <= i32::MAX,
    ;

    /// Appends `wire` to `buf` in the binary format and reports that no null
    /// was written.
    fn encode_range(wire: &PgRange<Self>, buf: &mut PgArgumentBuffer) -> (is_null: IsNull)
        ensures
            buffer_bytes(*final(buf)) == buffer_bytes(*old(buf)) + range_wire(
                mapped(wire.start, |v: Self| v.wire_bytes()),
                mapped(wire.end, |v: Self| v.wire_bytes()),
            ),
            is_null == IsNull::No,
    ;
}

impl WireElement for i32 {
    open spec fn wire_bytes(self) -> Seq<u8> {
        int4_bytes(self)
    }

    proof fn lemma_bytes_tell_value(a: Self, b: Self) {
        lemma_int4_bytes_injective(a, b);
    }

    proof fn lemma_bytes_fit_frame(self) {
    }

    fn encode_range(wire: &PgRange<i32>, buf: &mut PgArgumentBuffer) -> (is_null: IsNull) {
        encode_int4range(wire, buf)
    }
}

impl WireElement for i64 {
    open spec fn wire_bytes(self) -> Seq<u8> {
        int8_bytes(self)
    }

    proof fn lemma_bytes_tell_value(a: Self, b: Self) {
        lemma_int8_bytes_injective(a, b);
    }

    proof fn lemma_bytes_fit_frame(self) {
    }

    fn encode_range(wire: &PgRange<i64>, buf: &mut PgArgumentBuffer) -> (is_null: IsNull) {
        encode_int8range(wire, buf)
    }
}

/// A bound with its value, if any, replaced by the value's wire bytes.
pub open spec fn encoded<T: WireElement>(b: Bound<T>) -> Bound<Seq<u8>> {
    mapped(b, |v: T| v.wire_bytes())
}

/// The wire bytes of the range with the given bounds.
pub open spec fn wire_bytes_of<T: WireElement>(start: Bound<T>, end: Bound<T>) -> Seq<u8> {
    range_wire(encoded(start), encoded(end))
}

impl<T: WireElement> Range<T> {
    /// Appends the range to `buf` in the binary wire format, bounds unchanged,
    /// and reports that no null was written.
    pub fn encode_by_ref(&self, buf: &mut PgArgumentBuffer) -> (is_null: IsNull)
        ensures
            buffer_bytes(*final(buf)) == buffer_bytes(*old(buf)) + wire_bytes_of(
                self.start,
                self.end,
            ),
            is_null == IsNull::No,
    {
        let wire = PgRange { start: self.start, end: self.end };
        T::encode_range(&wire, buf)
    }
}

impl<T: WireElement> InExRange<T> {
    /// Appends the range to `buf` in the binary wire format, as the range that
    /// includes its start and excludes its end, and reports that no null was
    /// written.
    pub fn encode_by_ref(&self, buf: &mut PgArgumentBuffer) -> (is_null: IsNull)
        ensures
            buffer_bytes(*final(buf)) == buffer_bytes(*old(buf)) + wire_bytes_of(
                Bound::Included(self.inclusive_start),
                Bound::Excluded(self.exclusive_end),
            ),
            is_null == IsNull::No,
    {
        let wire = PgRange {
            start: Bound::Included(self.inclusive_start),
            end: Bound::Excluded(self.exclusive_end),
        };
        T::encode_range(&wire, buf)
    }
}

/// An example of the format: the `int4range` from 2, included, to 400,
/// excluded, is the flags byte, then twice the length 4 and a value.
pub proof fn lemma_int4range_example()
    ensures
        wire_bytes_of(Bound::Included(2i32), Bound::Excluded(400i32)) == seq![
            0x02u8, 0, 0, 0, 4, 0, 0, 0, 2, 0, 0, 0, 4, 0, 0, 1, 0x90,
        ],
{
    lemma_flags_byte_is_sum(BoundKind::Included, BoundKind::Excluded);
}

/// An example of the format: the `int8range` with no start that ends at -2,
/// included, is the flags byte, then the length 8 and the value in two's
/// complement.
pub proof fn lemma_int8range_example()
    ensures
        wire_bytes_of(Bound::<i64>::Unbounded, Bound::Included(-2i64)) == seq![
            0x0cu8, 0, 0, 0, 8, 0xff, 0xff, 0xff, 0xff, 0xff, 0xff, 0xff, 0xfe,
        ],
{
    lemma_flags_byte_is_sum(BoundKind::Unbounded, BoundKind::Included);
}

/// Encoding loses nothing: two ranges with the same wire bytes have the same
/// bounds, tags and values.
pub proof fn lemma_wire_bytes_tell_range<T: WireElement>(
    s1: Bound<T>,
    e1: Bound<T>,
    s2: Bound<T>,
    e2: Bound<T>,
)
    requires
        wire_bytes_of(s1, e1) == wire_bytes_of(s2, e2),
    ensures
        s1 == s2,
        e1 == e2,
{
    lemma_encoded_frameable(s1);
    lemma_encoded_frameable(e1);
    lemma_encoded_frameable(s2);
    lemma_encoded_frameable(e2);
    lemma_range_wire_injective(encoded(s1), encoded(e1), encoded(s2), encoded(e2));
    lemma_encoded_tells_bound(s1, s2);
    lemma_encoded_tells_bound(e1, e2);
}

proof fn lemma_encoded_frameable<T: WireElement>(b: Bound<T>)
    ensures
        frameable(encoded(b)),
{
    match b {
        Bound::Included(v) => v.lemma_bytes_fit_frame(),
        Bound::Excluded(v) => v.lemma_bytes_fit_frame(),
        Bound::Unbounded => {},
    }
}

proof fn lemma_encoded_tells_bound<T: WireElement>(a: Bound<T>, b: Bound<T>)
    requires
        encoded(a) == encoded(b),
    ensures
        a == b,
{
    match (a, b) {
        (Bound::Included(x), Bound::Included(y)) => T::lemma_bytes_tell_value(x, y),
        (Bound::Excluded(x), Bound::Excluded(y)) => T::lemma_bytes_tell_value(x, y),
        _ => {},
    }
}

} // verus!
