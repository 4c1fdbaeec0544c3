use swe_chart::constants::{Ayanamsha, CalculationFlags, CalculationMethodsRiseTransit};
use swe_chart::sweconst::{
    category_of, Aspects, AspectsFilter, Bodies, Calendar, Colors, Element, Language, ObjectType,
    OptionalFlag, Signs, Theme,
};

#[test]
fn theme_colors() {
    assert_eq!(Theme::Light.color(Colors::Primary), 0x000000);
    assert_eq!(Theme::Dark.color(Colors::Primary), 0xffffff);
    assert_eq!(Theme::Light.color(Colors::Secondary), 0xffffff);
    assert_eq!(Theme::Dark.color(Colors::Background), 0x000000);
}

#[test]
fn sign_texts_elements_colors() {
    assert_eq!(Signs::Aries.text(Language::English), "Aries");
    assert_eq!(Signs::Leo.text(Language::French), "Lio");
    assert_eq!(Signs::Pisces.text(Language::French), "Poisson");
    assert_eq!(Signs::Gemini.element(), Element::Wind);
    assert_eq!(Signs::Scorpio.element(), Element::Water);
    assert_eq!(Signs::Capricorn.element(), Element::Earth);
    assert_eq!(Signs::Sagittarius.color(Theme::Dark), 0xff0000);
    assert_eq!(Element::Earth.text(Language::French), "Terre");
    assert_eq!(Element::Water.color(Theme::Light), 0x0b34ff);
}

#[test]
fn body_categories() {
    assert_eq!(Bodies::EclNut.object_type(), ObjectType::Unknown);
    assert_eq!(Bodies::Sun.object_type(), ObjectType::PlanetOrStar);
    assert_eq!(Bodies::OscuApog.object_type(), ObjectType::PlanetOrStar);
    assert_eq!(Bodies::Earth.object_type(), ObjectType::Earth);
    assert_eq!(Bodies::Chiron.object_type(), ObjectType::Fiction);
    assert_eq!(Bodies::FortunaPart.object_type(), ObjectType::Fiction);
    assert_eq!(Bodies::Waldemath.object_type(), ObjectType::Fiction);
    assert_eq!(Bodies::Comets.object_type(), ObjectType::Unknown);
    assert_eq!(Bodies::Asteroids.object_type(), ObjectType::Asteroid);
    assert_eq!(Bodies::AsteroidNessus.object_type(), ObjectType::Asteroid);
    assert_eq!(category_of(30), ObjectType::Unknown);
}

#[test]
fn body_catalogue_numbers() {
    assert_eq!(Bodies::EclNut.catalogue_number(), -1);
    assert_eq!(Bodies::Jupiter.catalogue_number(), 5);
    assert_eq!(Bodies::Cupido.catalogue_number(), 40);
    assert_eq!(Bodies::AsteroidAstera.catalogue_number(), 10005);
    assert_eq!(Bodies::AsteroidNessus.catalogue_number(), 17066);
}

#[test]
fn body_texts_and_colors() {
    assert_eq!(Bodies::TrueNode.text(Language::English), "North node");
    assert_eq!(Bodies::MeanNode.text(Language::English), "MeanNode");
    assert_eq!(Bodies::Sun.text(Language::French), "Soleil");
    assert_eq!(Bodies::FortunaPart.text(Language::French), "Part de fortune");
    assert_eq!(Bodies::Vesta.text(Language::French), "Vesta");
    assert_eq!(Bodies::Sun.object_color(Theme::Light), 0xffa300);
    assert_eq!(Bodies::Pluto.object_color(Theme::Dark), 0xbf3a3a);
    assert_eq!(Bodies::Chiron.object_color(Theme::Light), 0x6b6b6b);
}

#[test]
fn aspect_table() {
    assert_eq!(Aspects::Conjunction.angle(), (0, 10));
    assert_eq!(Aspects::Opposition.angle(), (180, 8));
    assert_eq!(Aspects::Trine.angle(), (120, 7));
    assert_eq!(Aspects::Square.angle(), (90, 6));
    assert_eq!(Aspects::Sextile.angle(), (60, 5));
    assert_eq!(Aspects::Inconjunction.angle(), (150, 2));
    assert_eq!(Aspects::Sesquisquare.angle(), (135, 1));
    assert_eq!(Aspects::Semisquare.angle(), (45, 1));
    assert_eq!(Aspects::Semisextile.angle(), (30, 1));
    assert!(Aspects::Sextile.maj());
    assert!(!Aspects::Inconjunction.maj());
    assert_eq!(Aspects::Square.text(Language::French), "Quadrature");
    assert_eq!(Aspects::Semisquare.text(Language::French), "Demi-carré");
    assert_eq!(Aspects::Trine.text(Language::English), "Trine");
}

#[test]
fn aspect_filters() {
    assert_eq!(AspectsFilter::AllAspects.vec_aspects().len(), 9);
    assert_eq!(
        AspectsFilter::AllMajorsAspects.vec_aspects(),
        vec![Aspects::Conjunction, Aspects::Opposition, Aspects::Trine, Aspects::Square, Aspects::Sextile]
    );
    assert_eq!(
        AspectsFilter::AllMinorsAspect.vec_aspects(),
        vec![Aspects::Inconjunction, Aspects::Sesquisquare, Aspects::Semisquare, Aspects::Semisextile]
    );
    assert_eq!(AspectsFilter::Trine.vec_aspects(), vec![Aspects::Trine]);
    assert!(AspectsFilter::NoAspects.vec_aspects().is_empty());
}

#[test]
fn flags_and_codes() {
    assert_eq!(OptionalFlag::AstronomicPosition.value(), 1536);
    assert_eq!(OptionalFlag::Speed.value(), 256);
    assert_eq!(OptionalFlag::JplHorApprox.value(), 524288);
    assert_eq!(Calendar::Gregorian.code(), 1);
    assert_eq!(CalculationFlags::SIDEREAL_POSITIONS, 65536);
    assert_eq!(Ayanamsha::GALACTIC_CENTER_MULA_WILHELM, 36);
    assert_eq!(CalculationMethodsRiseTransit::HINDU_RISING, 896);
}
