//! Exact geometric model of the GMT segmented mirrors.
//!
//! The seven segments of the primary (M1) and secondary (M2) mirrors sit at
//! fixed places in the OSS, the telescope's global coordinate frame.  This
//! crate holds that placement as exact decimal data, together with the
//! decisions that the coordinate transformations between the OSS and the
//! segment frames depend on.

use vstd::prelude::*;

pub mod conic;
pub mod decimal;
pub mod mirror;
pub mod segment;

pub use conic::Conic;
pub use decimal::Decimal;
pub use mirror::{Gmt, Mirror, Motion, M1, M2};
pub use segment::{Axis, Geometry, Origin, Segment, SegmentTrait, Turn};

verus! {

/// Failure to build a segment.
#[derive(Debug, Clone, Copy, PartialEq, Eq, Structural)]
pub enum Error {
    /// The segment id is not in the range [1,7].
    SegmentId(i32),
}

} // verus!
