use vstd::prelude::*;
use crate::sign::Sign;

verus! {

/// The part of the plane in which an ion must lie to be a collision candidate
/// for an electron, chosen by the direction in which the electron moves. The
/// reach of an electron is the sum of the ion and electron radii.
#[derive(Clone, Copy, PartialEq, Eq, Debug, Structural)]
pub enum IonRegion {
    /// The quadrant ahead of the electron in both coordinates, widened by the
    /// reach: towards positive x when `east`, towards positive y when `north`.
    Quadrant { east: bool, north: bool },
    /// Strictly ahead in y (above when `north`, below otherwise), and within the
    /// reach plus one of the electron in x.
    Column { north: bool },
    /// Strictly ahead in x (to the right when `east`, to the left otherwise), and
    /// within a band in y around the electron.
    Row { east: bool },
    /// No ion is a candidate.
    Nowhere,
}

pub open spec fn spec_ion_region(vel_x: Sign, vel_y: Sign) -> IonRegion {
    match (vel_x, vel_y) {
        (Sign::Positive, Sign::Positive) => IonRegion::Quadrant { east: true, north: true },
        (Sign::Positive, Sign::Negative) => IonRegion::Quadrant { east: true, north: false },
        (Sign::Negative, Sign::Positive) => IonRegion::Quadrant { east: false, north: true },
        (Sign::Negative, Sign::Negative) => IonRegion::Quadrant { east: false, north: false },
        (Sign::Zero, Sign::Positive) => IonRegion::Column { north: true },
        (Sign::Zero, Sign::Negative) => IonRegion::Column { north: false },
        (Sign::Positive, Sign::Zero) => IonRegion::Row { east: true },
        (Sign::Negative, Sign::Zero) => IonRegion::Row { east: false },
        _ => IonRegion::Nowhere,
    }
}

/// The region in which ions are collision candidates for an electron whose
/// velocity components have the signs `vel_x` and `vel_y`.
pub fn ion_region(vel_x: Sign, vel_y: Sign) -> (r: IonRegion)
    ensures
        r == spec_ion_region(vel_x, vel_y),
{
    match (vel_x, vel_y) {
        (Sign::Positive, Sign::Positive) => IonRegion::Quadrant { east: true, north: true },
        (Sign::Positive, Sign::Negative) => IonRegion::Quadrant { east: true, north: false },
        (Sign::Negative, Sign::Positive) => IonRegion::Quadrant { east: false, north: true },
        (Sign::Negative, Sign::Negative) => IonRegion::Quadrant { east: false, north: false },
        (Sign::Zero, Sign::Positive) => IonRegion::Column { north: true },
        (Sign::Zero, Sign::Negative) => IonRegion::Column { north: false },
        (Sign::Positive, Sign::Zero) => IonRegion::Row { east: true },
        (Sign::Negative, Sign::Zero) => IonRegion::Row { east: false },
        _ => IonRegion::Nowhere,
    }
}

/// The region mirrored in a vertical line.
pub open spec fn mirror_x(r: IonRegion) -> IonRegion {
    match r {
        IonRegion::Quadrant { east, north } => IonRegion::Quadrant { east: !east, north },
        IonRegion::Row { east } => IonRegion::Row { east: !east },
        other => other,
    }
}

/// The region mirrored in a horizontal line.
pub open spec fn mirror_y(r: IonRegion) -> IonRegion {
    match r {
        IonRegion::Quadrant { east, north } => IonRegion::Quadrant { east, north: !north },
        IonRegion::Column { north } => IonRegion::Column { north: !north },
        other => other,
    }
}

/// Reversing one component of the velocity mirrors the candidate region in the
/// corresponding axis; an electron that moves in some direction (not at rest,
/// no unordered component) always has a region.
pub proof fn lemma_ion_region_mirror(vel_x: Sign, vel_y: Sign)
    ensures
        spec_ion_region(vel_x.spec_negate(), vel_y) == mirror_x(spec_ion_region(vel_x, vel_y)),
        spec_ion_region(vel_x, vel_y.spec_negate()) == mirror_y(spec_ion_region(vel_x, vel_y)),
        (spec_ion_region(vel_x, vel_y) is Nowhere) <==> (vel_x is Unordered || vel_y is Unordered
            || (vel_x is Zero && vel_y is Zero)),
{
}

} // verus!
