use swe_chart::chart::{classify_house_angle, match_aspect, motion_state, split_deg};
use swe_chart::constants::{check_house_system, DomainError, HouseSystems};
use swe_chart::sweconst::{Angle, Aspects, AspectsFilter, Bodies, House, Object, ObjectPos};

const DEG: i64 = 1_000_000;

#[test]
fn house_angles_by_cusp_number() {
    assert_eq!(classify_house_angle(1), Angle::Asc);
    assert_eq!(classify_house_angle(4), Angle::Fc);
    assert_eq!(classify_house_angle(7), Angle::Desc);
    assert_eq!(classify_house_angle(10), Angle::Mc);
    for i in [2, 3, 5, 6, 8, 9, 11, 12] {
        assert_eq!(classify_house_angle(i), Angle::Nothing);
    }
    assert_eq!(classify_house_angle(0), Angle::Nothing);
    assert_eq!(classify_house_angle(13), Angle::Nothing);
}

#[test]
fn motion_state_thresholds() {
    assert_eq!(motion_state(0), ObjectPos::Stationary);
    assert_eq!(motion_state(299), ObjectPos::Stationary);
    assert_eq!(motion_state(-299), ObjectPos::Stationary);
    assert_eq!(motion_state(300), ObjectPos::Direct);
    assert_eq!(motion_state(-300), ObjectPos::Retrograde);
    assert_eq!(motion_state(1_000_000), ObjectPos::Direct);
}

#[test]
fn jupiter_retrograde_on_test_date() {
    let o = Object::new(
        Bodies::Jupiter,
        "Jupiter",
        Bodies::Jupiter.object_type(),
        78_405_645,
        -699_507,
        -123_035,
    );
    assert_eq!(o.object_pos, ObjectPos::Retrograde);
    assert_eq!(o.object_name, "Jupiter");
    assert_eq!(o.longitude, 78_405_645);
    // 78.405645° = 18° 24' 20.322" of Gemini.
    assert_eq!(o.split.sign, 2);
    assert_eq!(o.split.deg, 18);
    assert_eq!(o.split.min, 24);
    assert_eq!(o.split.sec, 20);
    assert_eq!(o.split.sec_fraction, 322_000);
}

#[test]
fn split_deg_wraps_full_turn_and_negative() {
    let s = split_deg(360 * DEG);
    assert_eq!((s.sign, s.deg, s.min, s.sec, s.sec_fraction), (0, 0, 0, 0, 0));
    let s = split_deg(-1);
    // 359.999999° = 29° 59' 59.9964" of Pisces.
    assert_eq!((s.sign, s.deg, s.min, s.sec, s.sec_fraction), (11, 29, 59, 59, 996_400));
    let s = split_deg(48_627_632);
    // 48.627632° = 18° 37' 39.4752" of Taurus.
    assert_eq!((s.sign, s.deg, s.min, s.sec, s.sec_fraction), (1, 18, 37, 39, 475_200));
}

#[test]
fn house_cusp_keeps_its_angle_and_split() {
    let h = House::new(10, 297_110_967, classify_house_angle(10));
    assert_eq!(h.angle, Angle::Mc);
    assert_eq!(h.object_id, 10);
    assert_eq!(h.split.sign, 9);
    assert_eq!(h.split.deg, 27);
}

#[test]
fn conjunction_at_zero_separation() {
    for f in [AspectsFilter::AllAspects, AspectsFilter::AllMajorsAspects, AspectsFilter::Conjunction] {
        assert_eq!(match_aspect(123 * DEG, 123 * DEG, f), Some(Aspects::Conjunction));
        assert_eq!(match_aspect(0, 360 * DEG, f), Some(Aspects::Conjunction));
    }
    assert_eq!(match_aspect(5 * DEG, 5 * DEG, AspectsFilter::AllMinorsAspect), None);
}

#[test]
fn opposition_at_half_turn() {
    for f in [AspectsFilter::AllAspects, AspectsFilter::AllMajorsAspects, AspectsFilter::Opposition] {
        assert_eq!(match_aspect(10 * DEG, 190 * DEG, f), Some(Aspects::Opposition));
    }
}

#[test]
fn square_at_ninety_three_degrees_not_sextile() {
    assert_eq!(match_aspect(0, 93 * DEG, AspectsFilter::AllAspects), Some(Aspects::Square));
    assert_eq!(match_aspect(0, 93 * DEG, AspectsFilter::Square), Some(Aspects::Square));
    assert_eq!(match_aspect(0, 93 * DEG, AspectsFilter::Sextile), None);
    assert_eq!(match_aspect(350 * DEG, 83 * DEG, AspectsFilter::AllMajorsAspects), Some(Aspects::Square));
}

#[test]
fn orb_edges_and_filters() {
    assert_eq!(match_aspect(0, 127 * DEG, AspectsFilter::AllAspects), Some(Aspects::Trine));
    assert_eq!(match_aspect(0, 127 * DEG + 1, AspectsFilter::AllAspects), None);
    assert_eq!(match_aspect(0, 30 * DEG, AspectsFilter::AllMajorsAspects), None);
    assert_eq!(match_aspect(0, 30 * DEG, AspectsFilter::AllMinorsAspect), Some(Aspects::Semisextile));
    assert_eq!(match_aspect(0, 151 * DEG, AspectsFilter::AllAspects), Some(Aspects::Inconjunction));
    assert_eq!(match_aspect(0, 0, AspectsFilter::NoAspects), None);
}

#[test]
fn gauquelin_sectors_are_refused() {
    assert_eq!(check_house_system('G'), Err(DomainError::UnsupportedHouseSystem('G')));
    assert_eq!(check_house_system(HouseSystems::PLACIDUS), Ok(()));
}

#[test]
fn whole_sign_name_loses_its_qualifier() {
    assert_eq!(HouseSystems::get_house_system_name('W', "equal/ whole sign"), "whole sign");
    assert_eq!(HouseSystems::get_house_system_name('P', "Placidus"), "Placidus");
    assert_eq!(HouseSystems::get_house_system_name('E', "equal/ whole sign"), "equal/ whole sign");
    assert_eq!(HouseSystems::get_house_system_name('W', "equal/equal/ x equal/ "), "equal/x ");
}
