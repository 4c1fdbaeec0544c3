//! The chart rules: motion state, the sexagesimal split of a longitude,
//! house angles and aspect matching.

use crate::angle::{angular_separation, circle_norm, degnorm, separation, UNITS_PER_DEGREE};
use crate::sweconst::{
    filter_includes, spec_aspect_angle, spec_filter_aspects, Angle, Aspects, AspectsFilter, ObjectPos,
};
use vstd::prelude::*;

verus! {

/// Below this speed, in micro-degrees per day, a body counts as stationary.
pub const STATIONARY_SPEED: i64 = 300;

/// Motion of a body of speed `speed` (micro-degrees per day) in longitude.
pub open spec fn spec_motion_state(speed: int) -> ObjectPos {
    if -(STATIONARY_SPEED as int) < speed < STATIONARY_SPEED as int {
        ObjectPos::Stationary
    } else if speed > 0 {
        ObjectPos::Direct
    } else {
        ObjectPos::Retrograde
    }
}

/// Whether a body of speed `speed` in longitude is stationary, direct or retrograde.
pub fn motion_state(speed: i64) -> (r: ObjectPos)
    ensures
        r == spec_motion_state(speed as int),
{
    if -STATIONARY_SPEED < speed && speed < STATIONARY_SPEED {
        ObjectPos::Stationary
    } else if speed > 0 {
        ObjectPos::Direct
    } else {
        ObjectPos::Retrograde
    }
}

/// Micro-degrees in one sign of 30°.
pub const SIGN_SPAN: u64 = 30_000_000;

/// A longitude split into sign, degrees, minutes and seconds.
#[derive(Debug, Clone, Copy, PartialEq, Eq, Structural)]
pub struct SplitDegResult {
    /// Sign, 0 for Aries to 11 for Pisces.
    pub sign: i32,
    /// Whole degrees within the sign, 0 to 29.
    pub deg: i32,
    /// Arc-minutes, 0 to 59.
    pub min: i32,
    /// Arc-seconds, 0 to 59.
    pub sec: i32,
    /// What is left below the arc-second, in millionths of an arc-second.
    pub sec_fraction: i32,
}

impl SplitDegResult {
    /// The split of the longitude `lon` (micro-degrees), taken into
    /// [0°, 360°) first: each part within its range, and together, counted in
    /// millionths of an arc-second, the whole longitude.
    pub open spec fn splits(&self, lon: int) -> bool {
        &&& 0 <= self.sign < 12
        &&& 0 <= self.deg < 30
        &&& 0 <= self.min < 60
        &&& 0 <= self.sec < 60
        &&& 0 <= self.sec_fraction < 1_000_000
        &&& circle_norm(lon) * 3600 == (self.sign * 30 + self.deg) * 3_600_000_000 + self.min
            * 60_000_000 + self.sec * 1_000_000 + self.sec_fraction
    }
}

/// Splits a longitude into sign, degrees, minutes and seconds; 360° is the
/// start of Aries again.
pub fn split_deg(longitude: i64) -> (r: SplitDegResult)
    ensures
        r.splits(longitude as int),
{
    let n = degnorm(longitude) as u64;
    let sign = n / SIGN_SPAN;
    let within = n % SIGN_SPAN;
    let deg = within / 1_000_000;
    let f = within % 1_000_000;
    let t = f * 3600;
    let min = t / 60_000_000;
    let rest = t % 60_000_000;
    let sec = rest / 1_000_000;
    let frac = rest % 1_000_000;
    assert(n == sign * SIGN_SPAN + within);
    assert(within == deg * 1_000_000 + f);
    assert(rest == sec * 1_000_000 + frac);
    assert(t == min * 60_000_000 + rest);
    assert(n * 3600 == (sign * 30 + deg) * 3_600_000_000 + t) by (nonlinear_arith)
        requires
            n == sign * SIGN_SPAN + within,
            within == deg * 1_000_000 + f,
            t == f * 3600,
    ;
    SplitDegResult {
        sign: sign as i32,
        deg: deg as i32,
        min: min as i32,
        sec: sec as i32,
        sec_fraction: frac as i32,
    }
}

/// The angle that house cusp number `cusp` marks, by the convention of the
/// quadrant house systems: 1 the Ascendant, 4 the Imum Coeli, 7 the
/// Descendant, 10 the Midheaven, any other none.
pub open spec fn spec_house_angle(cusp: int) -> Angle {
    if cusp == 1 {
        Angle::Asc
    } else if cusp == 4 {
        Angle::Fc
    } else if cusp == 7 {
        Angle::Desc
    } else if cusp == 10 {
        Angle::Mc
    } else {
        Angle::Nothing
    }
}

/// The angle that house cusp number `cusp` marks, if any.
pub fn classify_house_angle(cusp: i32) -> (r: Angle)
    ensures
        r == spec_house_angle(cusp as int),
{
    match cusp {
        1 => Angle::Asc,
        4 => Angle::Fc,
        7 => Angle::Desc,
        10 => Angle::Mc,
        _ => Angle::Nothing,
    }
}

/// Cusps 1, 4, 7 and 10 mark the Ascendant, the Imum Coeli, the Descendant
/// and the Midheaven; the other cusps of the twelve mark no angle.
pub proof fn lemma_house_angles()
    ensures
        spec_house_angle(1) == Angle::Asc,
        spec_house_angle(4) == Angle::Fc,
        spec_house_angle(7) == Angle::Desc,
        spec_house_angle(10) == Angle::Mc,
        forall|i: int|
            1 <= i <= 12 && i != 1 && i != 4 && i != 7 && i != 10 ==> #[trigger] spec_house_angle(
                i,
            ) == Angle::Nothing,
{
}

/// Whether a separation `sep` (micro-degrees) lies within the orb of the aspect `a`.
pub open spec fn within_orb(a: Aspects, sep: int) -> bool {
    let exact = spec_aspect_angle(a).0 as int * UNITS_PER_DEGREE as int;
    let orb = spec_aspect_angle(a).1 as int * UNITS_PER_DEGREE as int;
    -orb <= sep - exact <= orb
}

/// The first aspect of `aspects` within whose orb the separation `sep` lies.
pub open spec fn first_match(aspects: Seq<Aspects>, sep: int) -> Option<Aspects>
    decreases aspects.len(),
{
    if aspects.len() == 0 {
        None
    } else if within_orb(aspects[0], sep) {
        Some(aspects[0])
    } else {
        first_match(aspects.drop_first(), sep)
    }
}

/// The aspect between the longitudes `lon_a` and `lon_b`: the first aspect
/// of the filter, in table order, within whose orb their separation lies.
pub open spec fn spec_match_aspect(lon_a: int, lon_b: int, filter: AspectsFilter) -> Option<
    Aspects,
> {
    first_match(spec_filter_aspects(filter), separation(lon_a, lon_b))
}

/// The aspect that relates two longitudes under `filter`, if any.
pub fn match_aspect(lon_a: i64, lon_b: i64, filter: AspectsFilter) -> (r: Option<Aspects>)
    ensures
        r == spec_match_aspect(lon_a as int, lon_b as int, filter),
{
    let sep = angular_separation(lon_a, lon_b);
    let aspects = filter.vec_aspects();
    let mut i: usize = 0;
    assert(aspects@.subrange(0, aspects@.len() as int) =~= aspects@);
    while i < aspects.len()
        invariant
            0 <= i <= aspects@.len(),
            0 <= sep <= crate::angle::HALF_CIRCLE,
            sep as int == separation(lon_a as int, lon_b as int),
            aspects@ == spec_filter_aspects(filter),
            first_match(aspects@, sep as int) == first_match(
                aspects@.subrange(i as int, aspects@.len() as int),
                sep as int,
            ),
        decreases aspects.len() - i,
    {
        let a = aspects[i];
        let (exact, orb) = a.angle();
        let diff = sep - exact as i64 * UNITS_PER_DEGREE;
        proof {
            let rest = aspects@.subrange(i as int, aspects@.len() as int);
            assert(rest[0] == a);
            assert(rest.drop_first() =~= aspects@.subrange(i as int + 1, aspects@.len() as int));
        }
        if -(orb as i64 * UNITS_PER_DEGREE) <= diff && diff <= orb as i64 * UNITS_PER_DEGREE {
            return Some(a);
        }
        i = i + 1;
    }
    None
}

/// Two longitudes at the same place on the circle are in conjunction under
/// every filter that selects the conjunction.
pub proof fn lemma_conjunction_at_zero(lon_a: int, lon_b: int, filter: AspectsFilter)
    requires
        separation(lon_a, lon_b) == 0,
        filter_includes(filter, Aspects::Conjunction),
    ensures
        spec_match_aspect(lon_a, lon_b, filter) == Some(Aspects::Conjunction),
{
    reveal_with_fuel(first_match, 2);
}

/// Two longitudes half a turn apart are in opposition under every filter
/// that selects the opposition.
pub proof fn lemma_opposition_at_half_turn(lon_a: int, lon_b: int, filter: AspectsFilter)
    requires
        separation(lon_a, lon_b) == 180 * UNITS_PER_DEGREE,
        filter_includes(filter, Aspects::Opposition),
    ensures
        spec_match_aspect(lon_a, lon_b, filter) == Some(Aspects::Opposition),
{
    reveal_with_fuel(first_match, 3);
}

/// A separation of 93° lies within the square's orb of 6° and outside the
/// sextile's: it matches the square under every filter that selects the
/// square, and nothing under the sextile alone.
pub proof fn lemma_square_not_sextile(lon_a: int, lon_b: int, filter: AspectsFilter)
    requires
        separation(lon_a, lon_b) == 93 * UNITS_PER_DEGREE,
    ensures
        within_orb(Aspects::Square, separation(lon_a, lon_b)),
        !within_orb(Aspects::Sextile, separation(lon_a, lon_b)),
        filter_includes(filter, Aspects::Square) ==> spec_match_aspect(lon_a, lon_b, filter)
            == Some(Aspects::Square),
        spec_match_aspect(lon_a, lon_b, AspectsFilter::Sextile) == None::<Aspects>,
{
    reveal_with_fuel(first_match, 5);
}

} // verus!
