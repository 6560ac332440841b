//! Conic surfaces.

use vstd::prelude::*;
use crate::decimal::{Decimal, UNITS_PER_ONE};

verus! {

/// Conic surface, given by its radius of curvature and its conic constant.
#[derive(Debug, Clone, Copy, PartialEq, Eq, Structural)]
pub struct Conic {
    /// Radius of curvature
    pub radius: Decimal,
    /// Conic constant
    pub constant: Decimal,
}

impl Conic {
    /// Whether the sag of the surface is defined at the radial distance
    /// `rho`, that is whether (k + 1)·ρ² ≤ R².
    ///
    /// With all three numbers in units of 10⁻⁸, the inequality is scaled by
    /// 10²⁴ on both sides.
    pub open spec fn defined_at(self, rho: Decimal) -> bool {
        (self.constant@ + UNITS_PER_ONE) * rho@ * rho@ <= self.radius@ * self.radius@ * UNITS_PER_ONE
    }

    /// The M1 preset: R = 36, k = −0.9982857.
    pub open spec fn m1_preset() -> Conic {
        Conic { radius: Decimal::of(3_600_000_000), constant: Decimal::of(-99_828_570) }
    }

    /// The M2 preset: R = −4.1639009, k = −0.71692784.
    pub open spec fn m2_preset() -> Conic {
        Conic { radius: Decimal::of(-416_390_090), constant: Decimal::of(-71_692_784) }
    }

    /// GMT M1 conic surface
    pub fn m1() -> (c: Conic)
        ensures
            c == Conic::m1_preset(),
    {
        Conic { radius: Decimal::from_units(3_600_000_000), constant: Decimal::from_units(-99_828_570) }
    }

    /// GMT M2 conic surface
    pub fn m2() -> (c: Conic)
        ensures
            c == Conic::m2_preset(),
    {
        Conic { radius: Decimal::from_units(-416_390_090), constant: Decimal::from_units(-71_692_784) }
    }
}

} // verus!
