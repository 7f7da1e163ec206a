use pg_range::{InExRange, Range, WireElement};
use sqlx::encode::IsNull;
use sqlx::postgres::types::PgRange;
use sqlx::postgres::PgArgumentBuffer;
use std::ops::Bound;

fn bytes_of<T: WireElement>(range: &Range<T>) -> Vec<u8> {
    let mut buf = PgArgumentBuffer::default();
    let is_null = range.encode_by_ref(&mut buf);
    assert!(matches!(is_null, IsNull::No));
    buf.to_vec()
}

fn int4(start: Bound<i32>, end: Bound<i32>) -> Vec<u8> {
    let mut buf = PgArgumentBuffer::default();
    let is_null = Range { start, end }.encode_by_ref(&mut buf);
    assert!(matches!(is_null, IsNull::No));
    buf.to_vec()
}

fn int8(start: Bound<i64>, end: Bound<i64>) -> Vec<u8> {
    let mut buf = PgArgumentBuffer::default();
    let is_null = Range { start, end }.encode_by_ref(&mut buf);
    assert!(matches!(is_null, IsNull::No));
    buf.to_vec()
}

#[test]
fn int4range_with_both_bounds_is_seventeen_bytes() {
    let bytes = int4(Bound::Included(2), Bound::Excluded(5));
    assert_eq!(bytes, [0x02, 0, 0, 0, 4, 0, 0, 0, 2, 0, 0, 0, 4, 0, 0, 0, 5]);
}

#[test]
fn int4range_flags_tell_the_nine_shapes_apart() {
    let v = [0, 0, 0, 4, 0, 0, 0, 2];
    let w = [0, 0, 0, 4, 0, 0, 1, 0x90];
    assert_eq!(int4(Bound::Unbounded, Bound::Unbounded), [0x18]);
    assert_eq!(int4(Bound::Unbounded, Bound::Included(400)), [&[0x0c][..], &w].concat());
    assert_eq!(int4(Bound::Unbounded, Bound::Excluded(400)), [&[0x08][..], &w].concat());
    assert_eq!(int4(Bound::Included(2), Bound::Unbounded), [&[0x12][..], &v].concat());
    assert_eq!(int4(Bound::Included(2), Bound::Included(400)), [&[0x06][..], &v, &w].concat());
    assert_eq!(int4(Bound::Included(2), Bound::Excluded(400)), [&[0x02][..], &v, &w].concat());
    assert_eq!(int4(Bound::Excluded(2), Bound::Unbounded), [&[0x10][..], &v].concat());
    assert_eq!(int4(Bound::Excluded(2), Bound::Included(400)), [&[0x04][..], &v, &w].concat());
    assert_eq!(int4(Bound::Excluded(2), Bound::Excluded(400)), [&[0x00][..], &v, &w].concat());
}

#[test]
fn int4range_writes_negative_values_in_twos_complement() {
    assert_eq!(
        int4(Bound::Included(-2), Bound::Excluded(-1)),
        [0x02, 0, 0, 0, 4, 0xff, 0xff, 0xff, 0xfe, 0, 0, 0, 4, 0xff, 0xff, 0xff, 0xff]
    );
    assert_eq!(
        int4(Bound::Included(i32::MIN), Bound::Included(i32::MAX)),
        [0x06, 0, 0, 0, 4, 0x80, 0, 0, 0, 0, 0, 0, 4, 0x7f, 0xff, 0xff, 0xff]
    );
    assert_eq!(
        int4(Bound::Excluded(0x0102_0304), Bound::Unbounded),
        [0x10, 0, 0, 0, 4, 1, 2, 3, 4]
    );
}

#[test]
fn int8range_with_both_bounds_is_twenty_five_bytes() {
    assert_eq!(
        int8(Bound::Included(2), Bound::Excluded(400)),
        [0x02, 0, 0, 0, 8, 0, 0, 0, 0, 0, 0, 0, 2, 0, 0, 0, 8, 0, 0, 0, 0, 0, 0, 1, 0x90]
    );
}

#[test]
fn int8range_writes_each_of_the_eight_bytes() {
    assert_eq!(
        int8(Bound::Excluded(0x0102_0304_0506_0708), Bound::Unbounded),
        [0x10, 0, 0, 0, 8, 1, 2, 3, 4, 5, 6, 7, 8]
    );
    assert_eq!(
        int8(Bound::Unbounded, Bound::Included(-2)),
        [0x0c, 0, 0, 0, 8, 0xff, 0xff, 0xff, 0xff, 0xff, 0xff, 0xff, 0xfe]
    );
    assert_eq!(
        int8(Bound::Included(i64::MIN), Bound::Included(i64::MAX)),
        [
            0x06, 0, 0, 0, 8, 0x80, 0, 0, 0, 0, 0, 0, 0, 0, 0, 0, 8, 0x7f, 0xff, 0xff, 0xff, 0xff,
            0xff, 0xff, 0xff
        ]
    );
    assert_eq!(int8(Bound::Unbounded, Bound::Unbounded), [0x18]);
}

#[test]
fn encoding_appends_to_what_the_buffer_holds() {
    let mut buf = PgArgumentBuffer::default();
    Range::from(1..2).encode_by_ref(&mut buf);
    let first = buf.to_vec();
    Range::from(3i64..).encode_by_ref(&mut buf);
    let both = buf.to_vec();
    assert_eq!(first, [0x02, 0, 0, 0, 4, 0, 0, 0, 1, 0, 0, 0, 4, 0, 0, 0, 2]);
    assert_eq!(both[..first.len()], first[..]);
    assert_eq!(both[first.len()..], [0x12, 0, 0, 0, 8, 0, 0, 0, 0, 0, 0, 0, 3]);
}

#[test]
fn encoding_leaves_the_range_as_it_was() {
    let range = Range::from(2..5);
    let mut buf = PgArgumentBuffer::default();
    range.encode_by_ref(&mut buf);
    range.encode_by_ref(&mut buf);
    assert_eq!(range, Range::from(2..5));
    assert_eq!(buf.len(), 34);
    assert_eq!(buf[..17], buf[17..]);
}

#[test]
fn inex_int4range_goes_out_as_included_start_and_excluded_end() {
    let mut buf = PgArgumentBuffer::default();
    let is_null = InExRange { inclusive_start: 2, exclusive_end: 400 }.encode_by_ref(&mut buf);
    assert!(matches!(is_null, IsNull::No));
    assert_eq!(buf.to_vec(), [0x02, 0, 0, 0, 4, 0, 0, 0, 2, 0, 0, 0, 4, 0, 0, 1, 0x90]);
    assert_eq!(buf.to_vec(), int4(Bound::Included(2), Bound::Excluded(400)));
}

#[test]
fn inex_int8range_goes_out_as_included_start_and_excluded_end() {
    let mut buf = PgArgumentBuffer::default();
    let range: InExRange<i64> = InExRange { inclusive_start: -1, exclusive_end: 1 };
    let is_null = range.encode_by_ref(&mut buf);
    assert!(matches!(is_null, IsNull::No));
    assert_eq!(
        buf.to_vec(),
        [
            0x02, 0, 0, 0, 8, 0xff, 0xff, 0xff, 0xff, 0xff, 0xff, 0xff, 0xff, 0, 0, 0, 8, 0, 0, 0,
            0, 0, 0, 0, 1
        ]
    );
    assert_eq!(buf.to_vec(), int8(Bound::Included(-1), Bound::Excluded(1)));
}

#[test]
fn distinct_ranges_have_distinct_wire_bytes() {
    let values = [
        Bound::Unbounded,
        Bound::Included(0),
        Bound::Excluded(0),
        Bound::Included(256),
        Bound::Excluded(-256),
        Bound::Included(i32::MIN),
    ];
    let mut all: Vec<((Bound<i32>, Bound<i32>), Vec<u8>)> = Vec::new();
    for start in values {
        for end in values {
            all.push(((start, end), int4(start, end)));
        }
    }
    for (a, a_bytes) in &all {
        for (b, b_bytes) in &all {
            assert_eq!(a == b, a_bytes == b_bytes);
        }
    }
}

#[test]
fn any_wire_element_encodes_through_the_same_call() {
    assert_eq!(bytes_of(&Range::from(..=7i32)), [0x0c, 0, 0, 0, 4, 0, 0, 0, 7]);
    assert_eq!(bytes_of(&Range::from(..=7i64)), [0x0c, 0, 0, 0, 8, 0, 0, 0, 0, 0, 0, 0, 7]);
    assert_eq!(bytes_of(&Range::from(2..5)), int4(Bound::Included(2), Bound::Excluded(5)));
}

#[test]
fn encode_range_writes_the_wire_range_it_is_given() {
    let mut buf = PgArgumentBuffer::default();
    let wire = PgRange { start: Bound::Excluded(1i32), end: Bound::Included(3i32) };
    let is_null = i32::encode_range(&wire, &mut buf);
    assert!(matches!(is_null, IsNull::No));
    assert_eq!(buf.to_vec(), [0x04, 0, 0, 0, 4, 0, 0, 0, 1, 0, 0, 0, 4, 0, 0, 0, 3]);
    let mut buf = PgArgumentBuffer::default();
    let wire = PgRange { start: Bound::Excluded(1i64), end: Bound::Unbounded };
    let is_null = i64::encode_range(&wire, &mut buf);
    assert!(matches!(is_null, IsNull::No));
    assert_eq!(buf.to_vec(), [0x10, 0, 0, 0, 8, 0, 0, 0, 0, 0, 0, 0, 1]);
}
