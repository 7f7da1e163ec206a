use pg_range::{BoundKind, DecodeError, InExRange, Range, ShapeError};
use sqlx::postgres::types::PgRange;
use std::ops::Bound;

fn shapes() -> Vec<(Bound<i32>, BoundKind)> {
    vec![
        (Bound::Unbounded, BoundKind::Unbounded),
        (Bound::Included(2), BoundKind::Included),
        (Bound::Excluded(2), BoundKind::Excluded),
    ]
}

#[test]
fn range_round_trips_through_the_wire_range_in_all_nine_shapes() {
    let mut seen = 0;
    for (start, _) in shapes() {
        for (end, _) in shapes() {
            let end = match end {
                Bound::Included(_) => Bound::Included(400),
                Bound::Excluded(_) => Bound::Excluded(400),
                Bound::Unbounded => Bound::Unbounded,
            };
            let range = Range { start, end };
            let wire = PgRange::from(range.clone());
            assert_eq!(wire.start, start);
            assert_eq!(wire.end, end);
            assert_eq!(Range::decode::<String>(Ok(wire)), Ok(range.clone()));
            assert_eq!(Range::decode::<String>(Ok(range.to_wire())), Ok(range));
            seen += 1;
        }
    }
    assert_eq!(seen, 9);
}

#[test]
fn range_decode_hands_the_failure_on() {
    let answer: Result<PgRange<i32>, String> = Err(String::from("unexpected null"));
    assert_eq!(Range::decode(answer), Err(String::from("unexpected null")));
}

#[test]
fn inex_range_round_trips_through_the_wire_range() {
    let range = InExRange { inclusive_start: 2, exclusive_end: 400 };
    let wire = PgRange::from(range.clone());
    assert_eq!(wire, PgRange { start: Bound::Included(2), end: Bound::Excluded(400) });
    assert_eq!(range.to_wire(), wire);
    assert_eq!(InExRange::decode::<String>(Ok(wire)), Ok(range));
}

#[test]
fn inex_range_round_trips_when_the_ends_are_not_ordered() {
    let range = InExRange { inclusive_start: 400, exclusive_end: 2 };
    assert_eq!(InExRange::decode::<String>(Ok(range.to_wire())), Ok(range.clone()));
    let same = InExRange { inclusive_start: 7, exclusive_end: 7 };
    assert_eq!(InExRange::decode::<String>(Ok(PgRange::from(same.clone()))), Ok(same));
}

#[test]
fn inex_range_round_trips_owned_values() {
    let range = InExRange { inclusive_start: String::from("a"), exclusive_end: String::from("m") };
    assert_eq!(InExRange::decode::<String>(Ok(range.to_wire())), Ok(range));
}

#[test]
fn inex_decode_refuses_every_other_shape_and_names_the_kinds() {
    let mut refused = 0;
    for (start, start_kind) in shapes() {
        for (end, end_kind) in shapes() {
            let canonical = start_kind == BoundKind::Included && end_kind == BoundKind::Excluded;
            let decoded = InExRange::decode::<String>(Ok(PgRange { start, end }));
            if canonical {
                assert_eq!(decoded, Ok(InExRange { inclusive_start: 2, exclusive_end: 2 }));
            } else {
                let shape = ShapeError { start: start_kind, end: end_kind };
                assert_eq!(decoded, Err(DecodeError::NonCanonical(shape)));
                refused += 1;
            }
        }
    }
    assert_eq!(refused, 8);
}

#[test]
fn inex_decode_refuses_an_unbounded_start() {
    let wire = PgRange { start: Bound::Unbounded, end: Bound::Excluded(5) };
    let shape = ShapeError { start: BoundKind::Unbounded, end: BoundKind::Excluded };
    assert_eq!(InExRange::decode::<String>(Ok(wire)), Err(DecodeError::NonCanonical(shape)));
}

#[test]
fn inex_decode_refuses_an_excluded_start() {
    let wire = PgRange { start: Bound::Excluded(2), end: Bound::Excluded(5) };
    let shape = ShapeError { start: BoundKind::Excluded, end: BoundKind::Excluded };
    assert_eq!(InExRange::decode::<String>(Ok(wire)), Err(DecodeError::NonCanonical(shape)));
}

#[test]
fn inex_decode_refuses_an_included_end() {
    let wire = PgRange { start: Bound::Included(2), end: Bound::Included(5) };
    let shape = ShapeError { start: BoundKind::Included, end: BoundKind::Included };
    assert_eq!(InExRange::decode::<String>(Ok(wire)), Err(DecodeError::NonCanonical(shape)));
}

#[test]
fn inex_decode_keeps_the_drivers_failure() {
    let answer: Result<PgRange<i32>, String> = Err(String::from("unexpected null"));
    assert_eq!(
        InExRange::decode(answer),
        Err(DecodeError::Malformed(String::from("unexpected null")))
    );
}

#[test]
fn shape_error_message_names_both_kinds() {
    let shape = ShapeError { start: BoundKind::Unbounded, end: BoundKind::Included };
    assert_eq!(
        shape.message(),
        "range is not inclusive-start/exclusive-end: start is unbounded, end is included"
    );
    let shape = ShapeError { start: BoundKind::Excluded, end: BoundKind::Excluded };
    assert_eq!(
        shape.message(),
        "range is not inclusive-start/exclusive-end: start is excluded, end is excluded"
    );
}

#[test]
fn half_open_range_and_its_interval_share_a_wire_range() {
    let range = InExRange { inclusive_start: 2, exclusive_end: 400 };
    let interval: std::ops::Range<i32> = range.clone().into();
    assert_eq!(PgRange::from(range), PgRange::from(Range::from(interval)));
}
