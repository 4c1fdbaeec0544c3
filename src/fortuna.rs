//! The Part of Fortune, and the South Node.

use crate::angle::{circle_norm, degnorm, is_longitude, HALF_CIRCLE};
use crate::horizon::{
    is_above_horizon, spec_is_above_horizon, valid_ascensional_difference, NumericDegeneracy,
};
use vstd::prelude::*;

verus! {

/// Asc + Moon − Sun by day, Asc + Sun − Moon by night, brought into [0°, 360°).
pub open spec fn spec_fortuna_longitude(asc: int, sun: int, moon: int, diurnal: bool) -> int {
    circle_norm(if diurnal { asc + moon - sun } else { asc + sun - moon })
}

/// The longitude of the Part of Fortune from the Ascendant, Sun and Moon
/// longitudes, for a day chart (`diurnal`) or a night chart.
pub fn fortuna_longitude(asc_lon: i64, sun_lon: i64, moon_lon: i64, diurnal: bool) -> (r: i64)
    requires
        is_longitude(asc_lon as int),
        is_longitude(sun_lon as int),
        is_longitude(moon_lon as int),
    ensures
        r as int == spec_fortuna_longitude(
            asc_lon as int,
            sun_lon as int,
            moon_lon as int,
            diurnal,
        ),
        is_longitude(r as int),
{
    let lon = if diurnal {
        asc_lon + moon_lon - sun_lon
    } else {
        asc_lon + sun_lon - moon_lon
    };
    degnorm(lon)
}

/// The Part of Fortune of a chart: the chart is diurnal when the Sun (right
/// ascension `sun_ra`, ascensional difference `sun_ad` at the observer's
/// latitude) stands above the horizon of the Midheaven `mc_ra`.
pub fn fortuna_part(
    asc_lon: i64,
    sun_lon: i64,
    moon_lon: i64,
    sun_ra: i64,
    mc_ra: i64,
    sun_ad: Result<i64, NumericDegeneracy>,
) -> (r: i64)
    requires
        is_longitude(asc_lon as int),
        is_longitude(sun_lon as int),
        is_longitude(moon_lon as int),
        valid_ascensional_difference(sun_ad),
    ensures
        r as int == spec_fortuna_longitude(
            asc_lon as int,
            sun_lon as int,
            moon_lon as int,
            spec_is_above_horizon(sun_ra as int, mc_ra as int, sun_ad),
        ),
        is_longitude(r as int),
{
    let diurnal = is_above_horizon(sun_ra, mc_ra, sun_ad);
    fortuna_longitude(asc_lon, sun_lon, moon_lon, diurnal)
}

/// The South Node: opposite the (true) North Node.
pub fn south_node_longitude(north_node_lon: i64) -> (r: i64)
    requires
        is_longitude(north_node_lon as int),
    ensures
        r as int == circle_norm(north_node_lon + HALF_CIRCLE),
        is_longitude(r as int),
{
    degnorm(north_node_lon + HALF_CIRCLE)
}

} // verus!
