//! What can go wrong when a range is read back from the wire.

use crate::bound::BoundKind;
use vstd::prelude::*;
use vstd::string::StringExecFns;

verus! {

/// A wire range whose bounds are not an inclusive start and an exclusive end,
/// with the kinds that were found instead.
#[derive(Debug, Clone, Copy, PartialEq, Eq, Structural)]
pub struct ShapeError {
    pub start: BoundKind,
    pub end: BoundKind,
}

/// Why a wire value did not become a range.
#[derive(Debug, PartialEq, Eq)]
pub enum DecodeError<E> {
    /// The driver could not read a range from the payload; its error is kept.
    Malformed(E),
    /// The payload is a range, but not of the shape the target type stands for.
    NonCanonical(ShapeError),
}

/// The word used for a bound kind in messages.
pub open spec fn kind_name(k: BoundKind) -> Seq<char> {
    match k {
        BoundKind::Unbounded => "unbounded"@,
        BoundKind::Included => "included"@,
        BoundKind::Excluded => "excluded"@,
    }
}

/// The message of a shape error that found the kinds `start` and `end`.
pub open spec fn shape_message(start: BoundKind, end: BoundKind) -> Seq<char> {
    "range is not inclusive-start/exclusive-end: start is "@ + kind_name(start) + ", end is "@
        + kind_name(end)
}

fn kind_word(k: BoundKind) -> (w: &'static str)
    ensures
        w@ == kind_name(k),
{
    match k {
        BoundKind::Unbounded => "unbounded",
        BoundKind::Included => "included",
        BoundKind::Excluded => "excluded",
    }
}

impl ShapeError {
    /// A sentence that names the two bound kinds that were found.
    pub fn message(&self) -> (s: String)
        ensures
            s@ == shape_message(self.start, self.end),
    {
        let mut s = "range is not inclusive-start/exclusive-end: start is ".to_owned();
        s.append(kind_word(self.start));
        s.append(", end is ");
        s.append(kind_word(self.end));
        s
    }
}

} // verus!
