//! Exact decimal numbers.

use vstd::prelude::*;

verus! {

/// Number of units that make up one.
pub const UNITS_PER_ONE: i64 = 100_000_000;

/// An exact decimal number with eight fractional digits, held as an integral
/// count of units of 10⁻⁸.
#[derive(Debug, Clone, Copy, PartialEq, Eq, Structural)]
pub struct Decimal {
    /// Count of units of 10⁻⁸
    pub units: i64,
}

impl View for Decimal {
    type V = int;

    /// The number of units of 10⁻⁸ that the decimal stands for.
    open spec fn view(&self) -> int {
        self.units as int
    }
}

impl Decimal {
    /// The decimal worth `units` × 10⁻⁸, for `units` within the range of `i64`.
    pub open spec fn of(units: int) -> Decimal {
        Decimal { units: units as i64 }
    }

    /// The decimal worth `units` × 10⁻⁸.
    pub fn from_units(units: i64) -> (d: Decimal)
        ensures
            d == Decimal::of(units as int),
    {
        Decimal { units }
    }

    /// The decimal worth the whole number `n`.
    pub fn from_whole(n: i32) -> (d: Decimal)
        ensures
            d == Decimal::of(n * UNITS_PER_ONE),
    {
        let n: i64 = n as i64;
        Decimal { units: n * UNITS_PER_ONE }
    }
}

} // verus!
