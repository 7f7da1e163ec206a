//! The binary format of a range on the Postgres wire: a flags byte that tells
//! the kinds of the two bounds, then, for each bound that has a value, the
//! value's length and bytes. Everything here is specification; the driver
//! does the writing.

use crate::bound::{kind_of, mapped, BoundKind};
use std::ops::Bound;
use vstd::arithmetic::div_mod::{lemma_fundamental_div_mod, lemma_fundamental_div_mod_converse};
use vstd::prelude::*;

verus! {

/// Flag bit: the start of the range is included.
pub const START_INCLUDED: u8 = 0x02;

/// Flag bit: the end of the range is included.
pub const END_INCLUDED: u8 = 0x04;

/// Flag bit: the range has no start.
pub const START_UNBOUNDED: u8 = 0x08;

/// Flag bit: the range has no end.
pub const END_UNBOUNDED: u8 = 0x10;

/// The flag bit that tells the kind of the start bound.
pub open spec fn start_flag(k: BoundKind) -> u8 {
    match k {
        BoundKind::Included => START_INCLUDED,
        BoundKind::Unbounded => START_UNBOUNDED,
        BoundKind::Excluded => 0,
    }
}

/// The flag bit that tells the kind of the end bound.
pub open spec fn end_flag(k: BoundKind) -> u8 {
    match k {
        BoundKind::Included => END_INCLUDED,
        BoundKind::Unbounded => END_UNBOUNDED,
        BoundKind::Excluded => 0,
    }
}

/// The first byte of a wire range: the kinds of its two bounds.
pub open spec fn flags_byte(start: BoundKind, end: BoundKind) -> u8 {
    start_flag(start) | end_flag(end)
}

/// A 32-bit integer as four bytes, most significant first, negative values
/// in two's complement.
pub open spec fn int4_bytes(v: i32) -> Seq<u8> {
    seq![
        (v as int / 0x100_0000 % 0x100) as u8,
        (v as int / 0x1_0000 % 0x100) as u8,
        (v as int / 0x100 % 0x100) as u8,
        (v as int % 0x100) as u8,
    ]
}

/// A 64-bit integer as eight bytes, most significant first, negative values
/// in two's complement.
pub open spec fn int8_bytes(v: i64) -> Seq<u8> {
    seq![
        (v as int / 0x100_0000_0000_0000 % 0x100) as u8,
        (v as int / 0x1_0000_0000_0000 % 0x100) as u8,
        (v as int / 0x100_0000_0000 % 0x100) as u8,
        (v as int / 0x1_0000_0000 % 0x100) as u8,
        (v as int / 0x100_0000 % 0x100) as u8,
        (v as int / 0x1_0000 % 0x100) as u8,
        (v as int / 0x100 % 0x100) as u8,
        (v as int % 0x100) as u8,
    ]
}

/// An encoded element as it stands inside a range: its length as a 32-bit
/// integer, then its bytes.
pub open spec fn framed(element: Seq<u8>) -> Seq<u8> {
    int4_bytes(element.len() as i32) + element
}

/// What a bound adds to a wire range: nothing where it is absent, else its
/// framed element.
pub open spec fn bound_frame(b: Bound<Seq<u8>>) -> Seq<u8> {
    match b {
        Bound::Unbounded => Seq::empty(),
        Bound::Included(element) => framed(element),
        Bound::Excluded(element) => framed(element),
    }
}

/// A range in the binary wire format, given the encoded elements of its
/// bounds: the flags byte, the start's frame, the end's frame.
pub open spec fn range_wire(start: Bound<Seq<u8>>, end: Bound<Seq<u8>>) -> Seq<u8> {
    seq![flags_byte(kind_of(start), kind_of(end))] + bound_frame(start) + bound_frame(end)
}

/// The wire bytes of an `int4range` with the given bounds.
pub open spec fn int4range_wire(start: Bound<i32>, end: Bound<i32>) -> Seq<u8> {
    range_wire(mapped(start, |v: i32| int4_bytes(v)), mapped(end, |v: i32| int4_bytes(v)))
}

/// The wire bytes of an `int8range` with the given bounds.
pub open spec fn int8range_wire(start: Bound<i64>, end: Bound<i64>) -> Seq<u8> {
    range_wire(mapped(start, |v: i64| int8_bytes(v)), mapped(end, |v: i64| int8_bytes(v)))
}

/// Every element a bound carries fits the 32-bit length of a frame.
pub open spec fn frameable(b: Bound<Seq<u8>>) -> bool {
    match b {
        Bound::Unbounded => true,
        Bound::Included(element) => element.len() <= i32::MAX,
        Bound::Excluded(element) => element.len() <= i32::MAX,
    }
}

/// The flag bits do not overlap, so the flags byte is their sum.
pub proof fn lemma_flags_byte_is_sum(start: BoundKind, end: BoundKind)
    ensures
        flags_byte(start, end) == start_flag(start) + end_flag(end),
{
    assert(0x00u8 | 0x00u8 == 0x00u8) by (bit_vector);
    assert(0x00u8 | 0x04u8 == 0x04u8) by (bit_vector);
    assert(0x00u8 | 0x10u8 == 0x10u8) by (bit_vector);
    assert(0x02u8 | 0x00u8 == 0x02u8) by (bit_vector);
    assert(0x02u8 | 0x04u8 == 0x06u8) by (bit_vector);
    assert(0x02u8 | 0x10u8 == 0x12u8) by (bit_vector);
    assert(0x08u8 | 0x00u8 == 0x08u8) by (bit_vector);
    assert(0x08u8 | 0x04u8 == 0x0cu8) by (bit_vector);
    assert(0x08u8 | 0x10u8 == 0x18u8) by (bit_vector);
}

/// The flags byte tells the kinds of both bounds: two pairs of kinds with the
/// same flags byte are the same pair.
pub proof fn lemma_flags_tell_kinds(s1: BoundKind, e1: BoundKind, s2: BoundKind, e2: BoundKind)
    requires
        flags_byte(s1, e1) == flags_byte(s2, e2),
    ensures
        s1 == s2,
        e1 == e2,
{
    lemma_flags_byte_is_sum(s1, e1);
    lemma_flags_byte_is_sum(s2, e2);
}

/// Dropping the low byte of what is left after dividing by `d` is dividing
/// by `d` and 256 at once.
proof fn lemma_drop_low_byte(v: int, d: int)
    requires
        d > 0,
    ensures
        v / (d * 0x100) == v / d / 0x100,
{
    let q = v / d;
    let r = v % d;
    let q2 = q / 0x100;
    let r2 = q % 0x100;
    assert(v == d * q + r) by {
        lemma_fundamental_div_mod(v, d);
    }
    assert(d * q == d * (0x100 * q2) + d * r2) by (nonlinear_arith)
        requires
            q == 0x100 * q2 + r2,
    ;
    assert(d * (0x100 * q2) == q2 * (d * 0x100)) by (nonlinear_arith);
    assert(0 <= d * r2 + r < d * 0x100) by (nonlinear_arith)
        requires
            0 <= r < d,
            0 <= r2 < 0x100,
    ;
    lemma_fundamental_div_mod_converse(v, d * 0x100, q2, d * r2 + r);
}

/// A number is told by its low byte and the rest.
proof fn lemma_low_byte_and_rest(x: int, y: int)
    requires
        x / 0x100 == y / 0x100,
        x % 0x100 == y % 0x100,
    ensures
        x == y,
{
    lemma_fundamental_div_mod(x, 0x100);
    lemma_fundamental_div_mod(y, 0x100);
}

/// Two 32-bit integers with the same four bytes are the same integer.
pub proof fn lemma_int4_bytes_injective(a: i32, b: i32)
    requires
        int4_bytes(a) == int4_bytes(b),
    ensures
        a == b,
{
    let x = int4_bytes(a);
    let y = int4_bytes(b);
    assert(x[0] == y[0] && x[1] == y[1] && x[2] == y[2] && x[3] == y[3]);
    let a0 = a as int;
    let b0 = b as int;
    lemma_drop_low_byte(a0, 0x100);
    lemma_drop_low_byte(a0, 0x1_0000);
    lemma_drop_low_byte(b0, 0x100);
    lemma_drop_low_byte(b0, 0x1_0000);
    let a3 = a0 / 0x100_0000;
    let b3 = b0 / 0x100_0000;
    assert(-0x80 <= a3 < 0x80 && -0x80 <= b3 < 0x80);
    assert(a3 == b3);
    lemma_low_byte_and_rest(a0 / 0x1_0000, b0 / 0x1_0000);
    lemma_low_byte_and_rest(a0 / 0x100, b0 / 0x100);
    lemma_low_byte_and_rest(a0, b0);
}

/// Two 64-bit integers with the same eight bytes are the same integer.
pub proof fn lemma_int8_bytes_injective(a: i64, b: i64)
    requires
        int8_bytes(a) == int8_bytes(b),
    ensures
        a == b,
{
    let x = int8_bytes(a);
    let y = int8_bytes(b);
    assert(x[0] == y[0] && x[1] == y[1] && x[2] == y[2] && x[3] == y[3]);
    assert(x[4] == y[4] && x[5] == y[5] && x[6] == y[6] && x[7] == y[7]);
    let a0 = a as int;
    let b0 = b as int;
    lemma_drop_low_byte(a0, 0x100);
    lemma_drop_low_byte(a0, 0x1_0000);
    lemma_drop_low_byte(a0, 0x100_0000);
    lemma_drop_low_byte(a0, 0x1_0000_0000);
    lemma_drop_low_byte(a0, 0x100_0000_0000);
    lemma_drop_low_byte(a0, 0x1_0000_0000_0000);
    lemma_drop_low_byte(b0, 0x100);
    lemma_drop_low_byte(b0, 0x1_0000);
    lemma_drop_low_byte(b0, 0x100_0000);
    lemma_drop_low_byte(b0, 0x1_0000_0000);
    lemma_drop_low_byte(b0, 0x100_0000_0000);
    lemma_drop_low_byte(b0, 0x1_0000_0000_0000);
    let a7 = a0 / 0x100_0000_0000_0000;
    let b7 = b0 / 0x100_0000_0000_0000;
    assert(-0x80 <= a7 < 0x80 && -0x80 <= b7 < 0x80);
    assert(a7 == b7);
    lemma_low_byte_and_rest(a0 / 0x1_0000_0000_0000, b0 / 0x1_0000_0000_0000);
    lemma_low_byte_and_rest(a0 / 0x100_0000_0000, b0 / 0x100_0000_0000);
    lemma_low_byte_and_rest(a0 / 0x1_0000_0000, b0 / 0x1_0000_0000);
    lemma_low_byte_and_rest(a0 / 0x100_0000, b0 / 0x100_0000);
    lemma_low_byte_and_rest(a0 / 0x1_0000, b0 / 0x1_0000);
    lemma_low_byte_and_rest(a0 / 0x100, b0 / 0x100);
    lemma_low_byte_and_rest(a0, b0);
}

/// A frame tells where it ends: of two byte strings that each begin with a
/// frame and are equal, the framed elements are equal and so is what follows.
proof fn lemma_frame_delimits(a: Seq<u8>, rest_a: Seq<u8>, b: Seq<u8>, rest_b: Seq<u8>)
    requires
        a.len() <= i32::MAX,
        b.len() <= i32::MAX,
        framed(a) + rest_a == framed(b) + rest_b,
    ensures
        a == b,
        rest_a == rest_b,
{
    let wa = framed(a) + rest_a;
    let wb = framed(b) + rest_b;
    assert(int4_bytes(a.len() as i32) =~= wa.subrange(0, 4));
    assert(int4_bytes(b.len() as i32) =~= wb.subrange(0, 4));
    lemma_int4_bytes_injective(a.len() as i32, b.len() as i32);
    assert(a =~= wa.subrange(4, 4 + a.len() as int));
    assert(b =~= wb.subrange(4, 4 + b.len() as int));
    assert(rest_a =~= wa.subrange(4 + a.len() as int, wa.len() as int));
    assert(rest_b =~= wb.subrange(4 + b.len() as int, wb.len() as int));
}

/// The format loses nothing: two ranges of encoded elements with the same
/// wire bytes have the same bounds.
pub proof fn lemma_range_wire_injective(
    s1: Bound<Seq<u8>>,
    e1: Bound<Seq<u8>>,
    s2: Bound<Seq<u8>>,
    e2: Bound<Seq<u8>>,
)
    requires
        frameable(s1),
        frameable(e1),
        frameable(s2),
        frameable(e2),
        range_wire(s1, e1) == range_wire(s2, e2),
    ensures
        s1 == s2,
        e1 == e2,
{
    let w1 = range_wire(s1, e1);
    let w2 = range_wire(s2, e2);
    assert(w1[0] == flags_byte(kind_of(s1), kind_of(e1)));
    assert(w2[0] == flags_byte(kind_of(s2), kind_of(e2)));
    lemma_flags_tell_kinds(kind_of(s1), kind_of(e1), kind_of(s2), kind_of(e2));
    let t1 = bound_frame(s1) + bound_frame(e1);
    let t2 = bound_frame(s2) + bound_frame(e2);
    assert(t1 =~= w1.subrange(1, w1.len() as int));
    assert(t2 =~= w2.subrange(1, w2.len() as int));
    let empty = Seq::<u8>::empty();
    assert(bound_frame(e1) + empty =~= bound_frame(e1));
    assert(bound_frame(e2) + empty =~= bound_frame(e2));
    match (s1, s2) {
        (Bound::Included(a), Bound::Included(b)) => {
            lemma_frame_delimits(a, bound_frame(e1), b, bound_frame(e2));
        },
        (Bound::Excluded(a), Bound::Excluded(b)) => {
            lemma_frame_delimits(a, bound_frame(e1), b, bound_frame(e2));
        },
        _ => {
            assert(t1 =~= bound_frame(e1));
            assert(t2 =~= bound_frame(e2));
        },
    }
    match (e1, e2) {
        (Bound::Included(a), Bound::Included(b)) => {
            lemma_frame_delimits(a, empty, b, empty);
        },
        (Bound::Excluded(a), Bound::Excluded(b)) => {
            lemma_frame_delimits(a, empty, b, empty);
        },
        _ => {},
    }
}

} // verus!
