//! Ecliptic to equatorial coordinates, diurnal and nocturnal arcs, and the
//! test of whether a point stands above the horizon.
//!
//! The trigonometry itself (sines, arcsines and the like) is computed by the
//! caller; what is decided from its results is decided here.

use crate::angle::{
    angular_separation, closest_distance, is_longitude, separation, spec_closest_distance,
    FULL_CIRCLE, HALF_CIRCLE, QUARTER_CIRCLE, UNITS_PER_DEGREE,
};
use vstd::prelude::*;

verus! {

/// Below this longitude the right ascension is taken in the first half of the circle.
pub const QUADRANT_SPLIT_LONGITUDE: i64 = 100_000_000;

/// Within this distance of 0° or 180° the quadrant of the right ascension is checked again.
pub const QUADRANT_CHECK_RADIUS: i64 = 5_000_000;

/// Largest difference, in millionths, between the two sides of the quadrant check that still agree.
pub const QUADRANT_CHECK_TOLERANCE: i64 = 300;

/// Slack added to the diurnal semi-arc against rounding at the boundary (about one arc-second).
pub const HORIZON_TOLERANCE: i64 = 300;

/// A point in equatorial coordinates, in micro-degrees.
#[derive(Debug, Clone, Copy, PartialEq, Eq, Structural)]
pub struct EquatorialPosition {
    /// Right ascension, in [0°, 360°).
    pub right_ascension: i64,
    /// Declination, in [-90°, 90°].
    pub declination: i64,
}

/// What spherical trigonometry yields for one ecliptic point under the
/// obliquity ε = 23.44°, before the quadrant of the right ascension is fixed.
#[derive(Debug, Clone, Copy, PartialEq, Eq, Structural)]
pub struct EquatorialSolution {
    /// asin(sin ε·sin λ·cos β + cos ε·sin β), in micro-degrees.
    pub declination: i64,
    /// acos(cos λ·cos β / cos δ), in micro-degrees.
    pub equatorial_distance: i64,
    /// sin(ed)·cos δ, in millionths.
    pub distance_sine: i64,
    /// cos ε·sin λ·cos β − sin ε·sin β, in millionths.
    pub check_target: i64,
}

impl EquatorialSolution {
    /// The ranges of an arcsine and of an arccosine.
    pub open spec fn wf(&self) -> bool {
        &&& -QUARTER_CIRCLE <= self.declination <= QUARTER_CIRCLE
        &&& 0 <= self.equatorial_distance <= HALF_CIRCLE
    }
}

/// Whether `lon` lies within 5° of 0° or of 180°.
pub open spec fn near_solstitial_axis(lon: int) -> bool {
    let d0 = spec_closest_distance(lon, 0);
    let d180 = spec_closest_distance(lon, HALF_CIRCLE as int);
    (-(QUADRANT_CHECK_RADIUS as int) < d0 < QUADRANT_CHECK_RADIUS as int) || (-(
    QUADRANT_CHECK_RADIUS as int) < d180 < QUADRANT_CHECK_RADIUS as int)
}

/// The right ascension of the point of longitude `lon`: the equatorial distance
/// or its complement to 360°, flipped when the sine check near 0° or 180°
/// disagrees, with 360° written as 0°.
pub open spec fn spec_right_ascension(lon: int, s: EquatorialSolution) -> int {
    let first_half = lon < QUADRANT_SPLIT_LONGITUDE as int;
    let ra0 = if first_half {
        s.equatorial_distance as int
    } else {
        FULL_CIRCLE as int - s.equatorial_distance
    };
    let a = if first_half {
        s.distance_sine as int
    } else {
        -(s.distance_sine as int)
    };
    let diff = a - s.check_target;
    let mismatch = diff > QUADRANT_CHECK_TOLERANCE as int || diff < -(
    QUADRANT_CHECK_TOLERANCE as int);
    let ra1 = if near_solstitial_axis(lon) && mismatch {
        FULL_CIRCLE as int - ra0
    } else {
        ra0
    };
    if ra1 == FULL_CIRCLE as int {
        0
    } else {
        ra1
    }
}

/// Equatorial coordinates of the ecliptic point of longitude `longitude`, from
/// the trigonometric solution for that point.
pub fn transform_to_equatorial(longitude: i64, solution: EquatorialSolution) -> (r:
    EquatorialPosition)
    requires
        solution.wf(),
    ensures
        r.right_ascension as int == spec_right_ascension(longitude as int, solution),
        r.declination == solution.declination,
        is_longitude(r.right_ascension as int),
        -QUARTER_CIRCLE <= r.declination <= QUARTER_CIRCLE,
{
    let first_half = longitude < QUADRANT_SPLIT_LONGITUDE;
    let mut ra = if first_half {
        solution.equatorial_distance
    } else {
        FULL_CIRCLE - solution.equatorial_distance
    };
    let d0 = closest_distance(longitude, 0);
    let d180 = closest_distance(longitude, HALF_CIRCLE);
    let near = (-QUADRANT_CHECK_RADIUS < d0 && d0 < QUADRANT_CHECK_RADIUS) || (
    -QUADRANT_CHECK_RADIUS < d180 && d180 < QUADRANT_CHECK_RADIUS);
    if near {
        let a: i128 = if first_half {
            solution.distance_sine as i128
        } else {
            -(solution.distance_sine as i128)
        };
        let diff: i128 = a - solution.check_target as i128;
        if diff > QUADRANT_CHECK_TOLERANCE as i128 || diff < -(QUADRANT_CHECK_TOLERANCE as i128) {
            ra = FULL_CIRCLE - ra;
        }
    }
    if ra == FULL_CIRCLE {
        ra = 0;
    }
    EquatorialPosition { right_ascension: ra, declination: solution.declination }
}

/// Why an ascensional difference has no value: the arcsine of
/// tan δ·tan φ is out of its domain.
#[derive(Debug, Clone, Copy, PartialEq, Eq, Structural)]
pub enum NumericDegeneracy {
    /// tan δ·tan φ > 1: the point never sets at this latitude.
    NeverSets,
    /// tan δ·tan φ < -1: the point never rises at this latitude.
    NeverRises,
}

/// An ascensional difference asin(tan δ·tan φ), in micro-degrees, or why it has none.
pub open spec fn valid_ascensional_difference(ad: Result<i64, NumericDegeneracy>) -> bool {
    match ad {
        Ok(a) => -QUARTER_CIRCLE <= a <= QUARTER_CIRCLE,
        Err(_) => true,
    }
}

/// Diurnal arc 180° + 2·AD and nocturnal arc 360° − diurnal arc.
pub open spec fn spec_dnarcs(a: int) -> (int, int) {
    let d = HALF_CIRCLE as int + 2 * a;
    (d, FULL_CIRCLE as int - d)
}

/// The diurnal and nocturnal arcs of a point of ascensional difference `ad`;
/// the degeneracy is handed back unchanged.
pub fn dnarcs(ad: Result<i64, NumericDegeneracy>) -> (r: Result<(i64, i64), NumericDegeneracy>)
    requires
        valid_ascensional_difference(ad),
    ensures
        match ad {
            Ok(a) => r == Ok::<(i64, i64), NumericDegeneracy>(
                (spec_dnarcs(a as int).0 as i64, spec_dnarcs(a as int).1 as i64),
            ),
            Err(e) => r == Err::<(i64, i64), NumericDegeneracy>(e),
        },
        r matches Ok((d, n)) ==> 0 <= d <= FULL_CIRCLE && 0 <= n <= FULL_CIRCLE && d + n
            == FULL_CIRCLE,
{
    match ad {
        Ok(a) => {
            let d_arc = HALF_CIRCLE + 2 * a;
            Ok((d_arc, FULL_CIRCLE - d_arc))
        },
        Err(e) => Err(e),
    }
}

/// Whether a point of right ascension `ra` stands above the horizon, given the
/// Midheaven's right ascension `mc_ra` and the point's ascensional difference:
/// its distance from the Midheaven is at most half its diurnal arc, plus the
/// tolerance. A point that never sets is above, one that never rises below.
pub open spec fn spec_is_above_horizon(
    ra: int,
    mc_ra: int,
    ad: Result<i64, NumericDegeneracy>,
) -> bool {
    match ad {
        Ok(a) => separation(mc_ra, ra) <= spec_dnarcs(a as int).0 / 2 + HORIZON_TOLERANCE,
        Err(NumericDegeneracy::NeverSets) => true,
        Err(NumericDegeneracy::NeverRises) => false,
    }
}

/// Whether the point of right ascension `ra` is above the horizon; see
/// `spec_is_above_horizon`.
pub fn is_above_horizon(ra: i64, mc_ra: i64, ad: Result<i64, NumericDegeneracy>) -> (r: bool)
    requires
        valid_ascensional_difference(ad),
    ensures
        r == spec_is_above_horizon(ra as int, mc_ra as int, ad),
{
    match dnarcs(ad) {
        Ok((d_arc, _)) => {
            let dist = angular_separation(mc_ra, ra);
            dist <= d_arc / 2 + HORIZON_TOLERANCE
        },
        Err(NumericDegeneracy::NeverSets) => true,
        Err(NumericDegeneracy::NeverRises) => false,
    }
}

/// Whatever its longitude, the transform of a point whose trigonometric
/// solution is in range yields a right ascension in [0°, 360°) and a
/// declination in [-90°, 90°].
pub proof fn lemma_transform_ranges(longitude: int, solution: EquatorialSolution)
    requires
        solution.wf(),
    ensures
        is_longitude(spec_right_ascension(longitude, solution)),
        -QUARTER_CIRCLE <= solution.declination <= QUARTER_CIRCLE,
{
}

/// A point exactly half its diurnal arc away from the Midheaven is above the
/// horizon; one farther than that by more than the tolerance is below.
pub proof fn lemma_horizon_boundary(ra: int, mc_ra: int, a: i64)
    requires
        -QUARTER_CIRCLE <= a <= QUARTER_CIRCLE,
    ensures
        separation(mc_ra, ra) == spec_dnarcs(a as int).0 / 2 ==> spec_is_above_horizon(
            ra,
            mc_ra,
            Ok(a),
        ),
        separation(mc_ra, ra) > spec_dnarcs(a as int).0 / 2 + HORIZON_TOLERANCE
            ==> !spec_is_above_horizon(ra, mc_ra, Ok(a)),
{
}

} // verus!
