use swe_chart::angle::{closest_distance, degnorm, znorm, FULL_CIRCLE, HALF_CIRCLE};
use swe_chart::fortuna::{fortuna_longitude, fortuna_part, south_node_longitude};
use swe_chart::horizon::{
    dnarcs, is_above_horizon, transform_to_equatorial, EquatorialSolution, NumericDegeneracy,
    HORIZON_TOLERANCE,
};

const DEG: i64 = 1_000_000;

#[test]
fn degnorm_wraps_negative_and_large_values() {
    assert_eq!(degnorm(-1), FULL_CIRCLE - 1);
    assert_eq!(degnorm(FULL_CIRCLE), 0);
    assert_eq!(degnorm(725 * DEG), 5 * DEG);
    assert_eq!(degnorm(-725 * DEG), 355 * DEG);
    assert_eq!(degnorm(123 * DEG), 123 * DEG);
}

#[test]
fn degnorm_twice_is_degnorm_once() {
    for x in [-1_000 * DEG, -1, 0, 359 * DEG, 360 * DEG, 1_234_567_891] {
        assert_eq!(degnorm(degnorm(x)), degnorm(x));
        assert!(degnorm(x) >= 0 && degnorm(x) < FULL_CIRCLE);
    }
}

#[test]
fn znorm_range_is_half_open_at_minus_half_turn() {
    assert_eq!(znorm(180 * DEG as i128), HALF_CIRCLE);
    assert_eq!(znorm(-180 * DEG as i128), HALF_CIRCLE);
    assert_eq!(znorm(190 * DEG as i128), -170 * DEG);
    assert_eq!(znorm(-190 * DEG as i128), 170 * DEG);
}

#[test]
fn closest_distance_crosses_zero() {
    assert_eq!(closest_distance(350 * DEG, 10 * DEG), 20 * DEG);
    assert_eq!(closest_distance(10 * DEG, 350 * DEG), -20 * DEG);
    assert_eq!(closest_distance(i64::MIN, i64::MAX), znorm(i64::MAX as i128 - i64::MIN as i128));
}

fn solution(decl: i64, ed: i64, sine: i64, target: i64) -> EquatorialSolution {
    EquatorialSolution {
        declination: decl,
        equatorial_distance: ed,
        distance_sine: sine,
        check_target: target,
    }
}

#[test]
fn right_ascension_follows_the_longitude_quadrant() {
    let r = transform_to_equatorial(45 * DEG, solution(17 * DEG, 42 * DEG, 0, 0));
    assert_eq!(r.right_ascension, 42 * DEG);
    assert_eq!(r.declination, 17 * DEG);
    let r = transform_to_equatorial(250 * DEG, solution(-20 * DEG, 112 * DEG, 0, 0));
    assert_eq!(r.right_ascension, 248 * DEG);
    assert_eq!(r.declination, -20 * DEG);
}

#[test]
fn right_ascension_is_flipped_near_the_axis_when_the_check_disagrees() {
    // 2° of longitude: near 0°, sine check off by more than the tolerance.
    let r = transform_to_equatorial(2 * DEG, solution(1 * DEG, 2 * DEG, 30_000, -30_000));
    assert_eq!(r.right_ascension, 358 * DEG);
    // Same point, the check agrees: no flip.
    let r = transform_to_equatorial(2 * DEG, solution(1 * DEG, 2 * DEG, 30_000, 30_100));
    assert_eq!(r.right_ascension, 2 * DEG);
    // 178°: second branch, sine taken with the opposite sign.
    let r = transform_to_equatorial(178 * DEG, solution(1 * DEG, 178 * DEG, 30_000, 30_000));
    assert_eq!(r.right_ascension, 178 * DEG);
    // Far from the axis the check is not made.
    let r = transform_to_equatorial(90 * DEG, solution(23 * DEG, 90 * DEG, 0, 900_000));
    assert_eq!(r.right_ascension, 90 * DEG);
}

#[test]
fn right_ascension_stays_below_a_full_turn() {
    let r = transform_to_equatorial(200 * DEG, solution(0, 0, 0, 0));
    assert_eq!(r.right_ascension, 0);
    for lon in [0, 1, 99 * DEG, 100 * DEG, 180 * DEG, 359 * DEG] {
        for ed in [0, 1, 90 * DEG, 180 * DEG] {
            for (s, t) in [(0, 0), (500_000, -500_000)] {
                let r = transform_to_equatorial(lon, solution(-90 * DEG, ed, s, t));
                assert!(r.right_ascension >= 0 && r.right_ascension < FULL_CIRCLE);
                assert!(r.declination >= -90 * DEG && r.declination <= 90 * DEG);
            }
        }
    }
}

#[test]
fn arcs_from_ascensional_difference() {
    assert_eq!(dnarcs(Ok(10 * DEG)), Ok((200 * DEG, 160 * DEG)));
    assert_eq!(dnarcs(Ok(-90 * DEG)), Ok((0, 360 * DEG)));
    assert_eq!(dnarcs(Err(NumericDegeneracy::NeverSets)), Err(NumericDegeneracy::NeverSets));
    assert_eq!(dnarcs(Err(NumericDegeneracy::NeverRises)), Err(NumericDegeneracy::NeverRises));
}

#[test]
fn horizon_boundary_is_inclusive_up_to_the_tolerance() {
    let ad = 10 * DEG;
    let semi = 100 * DEG;
    let mc = 300 * DEG;
    assert!(is_above_horizon(degnorm(mc + semi), mc, Ok(ad)));
    assert!(is_above_horizon(degnorm(mc - semi), mc, Ok(ad)));
    assert!(is_above_horizon(degnorm(mc + semi + HORIZON_TOLERANCE), mc, Ok(ad)));
    assert!(!is_above_horizon(degnorm(mc + semi + HORIZON_TOLERANCE + 1), mc, Ok(ad)));
    assert!(!is_above_horizon(degnorm(mc + 180 * DEG), mc, Ok(ad)));
}

#[test]
fn degenerate_ascensional_difference_decides_alone() {
    assert!(is_above_horizon(120 * DEG, 300 * DEG, Err(NumericDegeneracy::NeverSets)));
    assert!(!is_above_horizon(300 * DEG, 300 * DEG, Err(NumericDegeneracy::NeverRises)));
}

#[test]
fn fortuna_night_chart_from_houses_scenario() {
    let asc = 48_627_632;
    let sun = 299_161_960;
    let moon = 100_000_000;
    let lon = fortuna_longitude(asc, sun, moon, false);
    assert_eq!(lon, degnorm(asc + sun - moon));
    assert_eq!(lon, 247_789_592);
}

#[test]
fn fortuna_day_chart_wraps_below_zero() {
    assert_eq!(fortuna_longitude(10 * DEG, 300 * DEG, 20 * DEG, true), 90 * DEG);
    assert_eq!(fortuna_longitude(350 * DEG, 10 * DEG, 30 * DEG, false), 330 * DEG);
    assert_eq!(fortuna_longitude(350 * DEG, 30 * DEG, 10 * DEG, false), 10 * DEG);
}

#[test]
fn fortuna_part_chooses_the_formula_by_the_sun() {
    // Sun on the Midheaven: above the horizon, day formula.
    let day = fortuna_part(10 * DEG, 300 * DEG, 20 * DEG, 200 * DEG, 200 * DEG, Ok(0));
    assert_eq!(day, 90 * DEG);
    // Sun opposite the Midheaven: below, night formula.
    let night = fortuna_part(10 * DEG, 300 * DEG, 20 * DEG, 20 * DEG, 200 * DEG, Ok(0));
    assert_eq!(night, 290 * DEG);
}

#[test]
fn south_node_is_opposite_the_north_node() {
    assert_eq!(south_node_longitude(10 * DEG), 190 * DEG);
    assert_eq!(south_node_longitude(180 * DEG), 0);
    assert_eq!(south_node_longitude(359 * DEG), 179 * DEG);
}
