//! Range values over an ordered element type, their conversions from the
//! native range expressions, and their mapping onto the range type of the
//! Postgres wire protocol.
//!
//! - `bound`: the endpoints, and what can be said of one without its value.
//! - `range`: the general range and its conversions from `a..b`, `a..=b`,
//!   `a..`, `..b`, `..=b` and from explicit bounds.
//! - `inex`: the range that includes its start and excludes its end.
//! - `wire`: to and from the driver's range value, and what a decode makes of
//!   the driver's answer.
//! - `format`: the bytes of a range in the binary wire format.
//! - `encode`: writing a range into the driver's buffer.
//! - `round_trip`: that what was written can be read back as it was.
//! - `error`: why a decode can fail.

pub mod bound;
pub mod encode;
pub mod error;
pub mod format;
pub mod inex;
pub mod range;
pub mod round_trip;
pub mod wire;

pub use bound::BoundKind;
pub use encode::WireElement;
pub use error::{DecodeError, ShapeError};
pub use inex::InExRange;
pub use range::Range;
