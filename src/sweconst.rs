//! Bodies, signs, elements, aspects and the other named values of a chart,
//! with their display texts and colours.

use crate::chart::{motion_state, spec_motion_state, split_deg, SplitDegResult};
use vstd::prelude::*;

verus! {

/// Language of the display texts.
#[derive(Debug, Clone, Copy, PartialEq, Eq, Structural)]
pub enum Language {
    English,
    French,
}

/// Colour theme.
#[derive(Debug, Clone, Copy, PartialEq, Eq, Structural)]
pub enum Theme {
    Light,
    Dark,
}

/// Colour roles of a theme.
#[derive(Debug, Clone, Copy, PartialEq, Eq, Structural)]
pub enum Colors {
    Primary,
    Secondary,
    Background,
}

/// RGB value of black.
pub const BLACK: i32 = 0x000000;

/// RGB value of white.
pub const WHITE: i32 = 0xffffff;

/// The colour that `theme` gives to `role`: the primary colour is the
/// foreground (black on light, white on dark), the others its opposite.
pub open spec fn spec_theme_color(theme: Theme, role: Colors) -> i32 {
    match (role, theme) {
        (Colors::Primary, Theme::Light) => BLACK,
        (Colors::Primary, Theme::Dark) => WHITE,
        (_, Theme::Light) => WHITE,
        (_, Theme::Dark) => BLACK,
    }
}

impl Theme {
    /// RGB colour of `color` in this theme.
    pub fn color(self, color: Colors) -> (r: i32)
        ensures
            r == spec_theme_color(self, color),
    {
        match color {
            Colors::Primary => match self {
                Theme::Light => BLACK,
                Theme::Dark => WHITE,
            },
            Colors::Secondary => match self {
                Theme::Light => WHITE,
                Theme::Dark => BLACK,
            },
            Colors::Background => match self {
                Theme::Light => WHITE,
                Theme::Dark => BLACK,
            },
        }
    }
}

/// The twelve signs of the zodiac, in order from Aries.
#[derive(Debug, Clone, Copy, PartialEq, Eq, Structural)]
pub enum Signs {
    Aries,
    Taurus,
    Gemini,
    Cancer,
    Leo,
    Virgo,
    Libra,
    Scorpio,
    Sagittarius,
    Capricorn,
    Aquarius,
    Pisces,
}

/// The four elements.
#[derive(Debug, Clone, Copy, PartialEq, Eq, Structural)]
pub enum Element {
    Fire,
    Earth,
    Wind,
    Water,
}

/// Position of a sign in the zodiac: 1 for Aries to 12 for Pisces.
pub open spec fn spec_sign_number(s: Signs) -> int {
    match s {
        Signs::Aries => 1,
        Signs::Taurus => 2,
        Signs::Gemini => 3,
        Signs::Cancer => 4,
        Signs::Leo => 5,
        Signs::Virgo => 6,
        Signs::Libra => 7,
        Signs::Scorpio => 8,
        Signs::Sagittarius => 9,
        Signs::Capricorn => 10,
        Signs::Aquarius => 11,
        Signs::Pisces => 12,
    }
}

/// The elements follow one another in the order fire, earth, wind, water
/// around the zodiac, starting with Aries.
pub open spec fn spec_sign_element(s: Signs) -> Element {
    let k = (spec_sign_number(s) - 1) % 4;
    if k == 0 {
        Element::Fire
    } else if k == 1 {
        Element::Earth
    } else if k == 2 {
        Element::Wind
    } else {
        Element::Water
    }
}

/// Name of a sign in `lang`.
pub open spec fn spec_sign_text(s: Signs, lang: Language) -> Seq<char> {
    match lang {
        Language::English => match s {
            Signs::Aries => "Aries"@,
            Signs::Taurus => "Taurus"@,
            Signs::Gemini => "Gemini"@,
            Signs::Cancer => "Cancer"@,
            Signs::Leo => "Leo"@,
            Signs::Virgo => "Virgo"@,
            Signs::Libra => "Libra"@,
            Signs::Scorpio => "Scorpio"@,
            Signs::Sagittarius => "Sagittarius"@,
            Signs::Capricorn => "Capricorn"@,
            Signs::Aquarius => "Aquarius"@,
            Signs::Pisces => "Pisces"@,
        },
        Language::French => match s {
            Signs::Aries => "Belier"@,
            Signs::Taurus => "Taureau"@,
            Signs::Gemini => "Gemaux"@,
            Signs::Cancer => "Cancer"@,
            Signs::Leo => "Lio"@,
            Signs::Virgo => "Vierge"@,
            Signs::Libra => "Balance"@,
            Signs::Scorpio => "Scorpion"@,
            Signs::Sagittarius => "Sagittaire"@,
            Signs::Capricorn => "Capricorne"@,
            Signs::Aquarius => "Verseau"@,
            Signs::Pisces => "Poisson"@,
        },
    }
}

impl Signs {
    /// Name of the sign in `lang`.
    pub fn text(self, lang: Language) -> (r: String)
        ensures
            r@ == spec_sign_text(self, lang),
    {
        let s: &str = match lang {
            Language::English => match self {
                Signs::Aries => "Aries",
                Signs::Taurus => "Taurus",
                Signs::Gemini => "Gemini",
                Signs::Cancer => "Cancer",
                Signs::Leo => "Leo",
                Signs::Virgo => "Virgo",
                Signs::Libra => "Libra",
                Signs::Scorpio => "Scorpio",
                Signs::Sagittarius => "Sagittarius",
                Signs::Capricorn => "Capricorn",
                Signs::Aquarius => "Aquarius",
                Signs::Pisces => "Pisces",
            },
            Language::French => match self {
                Signs::Aries => "Belier",
                Signs::Taurus => "Taureau",
                Signs::Gemini => "Gemaux",
                Signs::Cancer => "Cancer",
                Signs::Leo => "Lio",
                Signs::Virgo => "Vierge",
                Signs::Libra => "Balance",
                Signs::Scorpio => "Scorpion",
                Signs::Sagittarius => "Sagittaire",
                Signs::Capricorn => "Capricorne",
                Signs::Aquarius => "Verseau",
                Signs::Pisces => "Poisson",
            },
        };
        String::from_str(s)
    }

    /// Element of the sign.
    pub fn element(self) -> (r: Element)
        ensures
            r == spec_sign_element(self),
    {
        match self {
            Signs::Aries => Element::Fire,
            Signs::Taurus => Element::Earth,
            Signs::Gemini => Element::Wind,
            Signs::Cancer => Element::Water,
            Signs::Leo => Element::Fire,
            Signs::Virgo => Element::Earth,
            Signs::Libra => Element::Wind,
            Signs::Scorpio => Element::Water,
            Signs::Sagittarius => Element::Fire,
            Signs::Capricorn => Element::Earth,
            Signs::Aquarius => Element::Wind,
            Signs::Pisces => Element::Water,
        }
    }

    /// Colour of the sign: that of its element.
    pub fn color(self, theme: Theme) -> (r: u32)
        ensures
            r == spec_element_color(spec_sign_element(self), theme),
    {
        self.element().color(theme)
    }
}

/// Name of an element in `lang`.
pub open spec fn spec_element_text(e: Element, lang: Language) -> Seq<char> {
    match lang {
        Language::English => match e {
            Element::Fire => "Fire"@,
            Element::Earth => "Earth"@,
            Element::Wind => "Wind"@,
            Element::Water => "Water"@,
        },
        Language::French => match e {
            Element::Fire => "Feu"@,
            Element::Earth => "Terre"@,
            Element::Wind => "Wind"@,
            Element::Water => "Water"@,
        },
    }
}

/// Colour of an element; both themes use the same colours.
pub open spec fn spec_element_color(e: Element, theme: Theme) -> u32 {
    match e {
        Element::Fire => 0xff0000u32,
        Element::Earth => 0xffc200u32,
        Element::Wind => 0x00c42au32,
        Element::Water => 0x0b34ffu32,
    }
}

impl Element {
    /// Name of the element in `lang`.
    pub fn text(self, lang: Language) -> (r: String)
        ensures
            r@ == spec_element_text(self, lang),
    {
        let s: &str = match lang {
            Language::English => match self {
                Element::Fire => "Fire",
                Element::Earth => "Earth",
                Element::Wind => "Wind",
                Element::Water => "Water",
            },
            Language::French => match self {
                Element::Fire => "Feu",
                Element::Earth => "Terre",
                Element::Wind => "Wind",
                Element::Water => "Water",
            },
        };
        String::from_str(s)
    }

    /// RGB colour of the element in `theme`.
    pub fn color(self, theme: Theme) -> (r: u32)
        ensures
            r == spec_element_color(self, theme),
    {
        match theme {
            Theme::Light => match self {
                Element::Fire => 0xff0000,
                Element::Earth => 0xffc200,
                Element::Wind => 0x00c42a,
                Element::Water => 0x0b34ff,
            },
            Theme::Dark => match self {
                Element::Fire => 0xff0000,
                Element::Earth => 0xffc200,
                Element::Wind => 0x00c42a,
                Element::Water => 0x0b34ff,
            },
        }
    }
}

/// RGB value of the grey used for bodies without a colour of their own.
pub const GRAY: i32 = 0x6b6b6b;

/// Category of a body.
#[derive(Debug, Clone, Copy, PartialEq, Eq, Structural)]
pub enum ObjectType {
    Unknown,
    PlanetOrStar,
    Earth,
    Fiction,
    Asteroid,
}

/// Category of a catalogue number: the Sun to the osculating apogee are
/// planets or stars, then comes the Earth; Chiron to the Part of Fortune and
/// the Uranian and other fictitious bodies are fictions; numbers from the
/// asteroid offset on are asteroids; the rest is unknown.
pub open spec fn category_of_number(n: int) -> ObjectType {
    if 0 <= n <= 13 {
        ObjectType::PlanetOrStar
    } else if n == 14 {
        ObjectType::Earth
    } else if (15 <= n <= 25) || (40 <= n <= 58) {
        ObjectType::Fiction
    } else if n >= ASTEROID_OFFSET as int {
        ObjectType::Asteroid
    } else {
        ObjectType::Unknown
    }
}

/// Category of the catalogue number `n`.
pub fn category_of(n: i32) -> (r: ObjectType)
    ensures
        r == category_of_number(n as int),
{
    if 0 <= n && n <= 13 {
        ObjectType::PlanetOrStar
    } else if n == 14 {
        ObjectType::Earth
    } else if (15 <= n && n <= 25) || (40 <= n && n <= 58) {
        ObjectType::Fiction
    } else if n >= ASTEROID_OFFSET {
        ObjectType::Asteroid
    } else {
        ObjectType::Unknown
    }
}

/// The bodies of the ephemeris catalogue, and the points computed alongside them.
#[derive(Debug, Clone, Copy, PartialEq, Eq, Structural)]
pub enum Bodies {
    /// Obliquity of the ecliptic and nutation.
    EclNut,
    Sun,
    Moon,
    Mercury,
    Venus,
    Mars,
    Jupiter,
    Saturn,
    Uranus,
    Neptune,
    Pluto,
    MeanNode,
    TrueNode,
    MeanApog,
    OscuApog,
    Earth,
    Chiron,
    Pholus,
    Ceres,
    Pallas,
    Juno,
    Vesta,
    IntpApog,
    IntpPerg,
    /// Number of the planets of the catalogue.
    NPlanets,
    SouthNode,
    FortunaPart,
    /// Start of the comets' numbers.
    Comets,
    /// Start of the asteroids' numbers.
    Asteroids,
    /// Uranian (Hamburg school) bodies, from Cupido to Poseidon.
    Cupido,
    Hades,
    Zeus,
    Kronos,
    Apollon,
    Admetos,
    Vulkanus,
    Poseidon,
    /// Other fictitious bodies, from Isis to Waldemath.
    Isis,
    Nibiru,
    Harrington,
    NeptuneLeverrier,
    NeptuneAdams,
    PlutoLowell,
    PlutoPickering,
    Vulcan,
    WhiteMoon,
    Proserpina,
    Waldemath,
    /// Named asteroids, from Astera to Nessus.
    AsteroidAstera,
    AsteroidHebe,
    AsteroidIris,
    AsteroidFlora,
    AsteroidMetis,
    AsteroidHygiea,
    AsteroidUrania,
    AsteroidIsis,
    AsteroidHilda,
    AsteroidPhilosophia,
    AsteroidSophia,
    AsteroidAletheia,
    AsteroidSapientia,
    AsteroidThule,
    AsteroidUrsula,
    AsteroidEros,
    AsteroidCupido,
    AsteroidHidalgo,
    AsteroidLilith,
    AsteroidAmor,
    AsteroidKama,
    AsteroidAphrodite,
    AsteroidApollo,
    AsteroidDamocles,
    AsteroidCruithne,
    AsteroidPoseidon,
    AsteroidVulcano,
    AsteroidZeus,
    AsteroidNessus,
}

/// Catalogue numbers of asteroids start here: minor planet N has number `ASTEROID_OFFSET + N`.
pub const ASTEROID_OFFSET: i32 = 10000;

/// Catalogue number of the comets' range.
pub const COMETS_OFFSET: i32 = 1000;

/// Catalogue number of a body, as the ephemeris knows it.
pub open spec fn spec_catalogue_number(b: Bodies) -> int {
    match b {
        Bodies::EclNut => -1,
        Bodies::Sun => 0,
        Bodies::Moon => 1,
        Bodies::Mercury => 2,
        Bodies::Venus => 3,
        Bodies::Mars => 4,
        Bodies::Jupiter => 5,
        Bodies::Saturn => 6,
        Bodies::Uranus => 7,
        Bodies::Neptune => 8,
        Bodies::Pluto => 9,
        Bodies::MeanNode => 10,
        Bodies::TrueNode => 11,
        Bodies::MeanApog => 12,
        Bodies::OscuApog => 13,
        Bodies::Earth => 14,
        Bodies::Chiron => 15,
        Bodies::Pholus => 16,
        Bodies::Ceres => 17,
        Bodies::Pallas => 18,
        Bodies::Juno => 19,
        Bodies::Vesta => 20,
        Bodies::IntpApog => 21,
        Bodies::IntpPerg => 22,
        Bodies::NPlanets => 23,
        Bodies::SouthNode => 24,
        Bodies::FortunaPart => 25,
        Bodies::Comets => COMETS_OFFSET as int,
        Bodies::Asteroids => 10000,
        Bodies::Cupido => 40,
        Bodies::Hades => 41,
        Bodies::Zeus => 42,
        Bodies::Kronos => 43,
        Bodies::Apollon => 44,
        Bodies::Admetos => 45,
        Bodies::Vulkanus => 46,
        Bodies::Poseidon => 47,
        Bodies::Isis => 48,
        Bodies::Nibiru => 49,
        Bodies::Harrington => 50,
        Bodies::NeptuneLeverrier => 51,
        Bodies::NeptuneAdams => 52,
        Bodies::PlutoLowell => 53,
        Bodies::PlutoPickering => 54,
        Bodies::Vulcan => 55,
        Bodies::WhiteMoon => 56,
        Bodies::Proserpina => 57,
        Bodies::Waldemath => 58,
        Bodies::AsteroidAstera => ASTEROID_OFFSET as int + 5,
        Bodies::AsteroidHebe => ASTEROID_OFFSET as int + 6,
        Bodies::AsteroidIris => ASTEROID_OFFSET as int + 7,
        Bodies::AsteroidFlora => ASTEROID_OFFSET as int + 8,
        Bodies::AsteroidMetis => ASTEROID_OFFSET as int + 9,
        Bodies::AsteroidHygiea => ASTEROID_OFFSET as int + 10,
        Bodies::AsteroidUrania => ASTEROID_OFFSET as int + 30,
        Bodies::AsteroidIsis => ASTEROID_OFFSET as int + 42,
        Bodies::AsteroidHilda => ASTEROID_OFFSET as int + 153,
        Bodies::AsteroidPhilosophia => ASTEROID_OFFSET as int + 227,
        Bodies::AsteroidSophia => ASTEROID_OFFSET as int + 251,
        Bodies::AsteroidAletheia => ASTEROID_OFFSET as int + 259,
        Bodies::AsteroidSapientia => ASTEROID_OFFSET as int + 275,
        Bodies::AsteroidThule => ASTEROID_OFFSET as int + 279,
        Bodies::AsteroidUrsula => ASTEROID_OFFSET as int + 375,
        Bodies::AsteroidEros => ASTEROID_OFFSET as int + 433,
        Bodies::AsteroidCupido => ASTEROID_OFFSET as int + 763,
        Bodies::AsteroidHidalgo => ASTEROID_OFFSET as int + 944,
        Bodies::AsteroidLilith => ASTEROID_OFFSET as int + 1181,
        Bodies::AsteroidAmor => ASTEROID_OFFSET as int + 1221,
        Bodies::AsteroidKama => ASTEROID_OFFSET as int + 1387,
        Bodies::AsteroidAphrodite => ASTEROID_OFFSET as int + 1388,
        Bodies::AsteroidApollo => ASTEROID_OFFSET as int + 1862,
        Bodies::AsteroidDamocles => ASTEROID_OFFSET as int + 3553,
        Bodies::AsteroidCruithne => ASTEROID_OFFSET as int + 3753,
        Bodies::AsteroidPoseidon => ASTEROID_OFFSET as int + 4341,
        Bodies::AsteroidVulcano => ASTEROID_OFFSET as int + 4464,
        Bodies::AsteroidZeus => ASTEROID_OFFSET as int + 5731,
        Bodies::AsteroidNessus => ASTEROID_OFFSET as int + 7066,
    }
}

/// Name of a body: the identifier of its variant.
pub open spec fn spec_body_name(b: Bodies) -> Seq<char> {
    match b {
        Bodies::EclNut => "EclNut"@,
        Bodies::Sun => "Sun"@,
        Bodies::Moon => "Moon"@,
        Bodies::Mercury => "Mercury"@,
        Bodies::Venus => "Venus"@,
        Bodies::Mars => "Mars"@,
        Bodies::Jupiter => "Jupiter"@,
        Bodies::Saturn => "Saturn"@,
        Bodies::Uranus => "Uranus"@,
        Bodies::Neptune => "Neptune"@,
        Bodies::Pluto => "Pluto"@,
        Bodies::MeanNode => "MeanNode"@,
        Bodies::TrueNode => "TrueNode"@,
        Bodies::MeanApog => "MeanApog"@,
        Bodies::OscuApog => "OscuApog"@,
        Bodies::Earth => "Earth"@,
        Bodies::Chiron => "Chiron"@,
        Bodies::Pholus => "Pholus"@,
        Bodies::Ceres => "Ceres"@,
        Bodies::Pallas => "Pallas"@,
        Bodies::Juno => "Juno"@,
        Bodies::Vesta => "Vesta"@,
        Bodies::IntpApog => "IntpApog"@,
        Bodies::IntpPerg => "IntpPerg"@,
        Bodies::NPlanets => "NPlanets"@,
        Bodies::SouthNode => "SouthNode"@,
        Bodies::FortunaPart => "FortunaPart"@,
        Bodies::Comets => "Comets"@,
        Bodies::Asteroids => "Asteroids"@,
        Bodies::Cupido => "Cupido"@,
        Bodies::Hades => "Hades"@,
        Bodies::Zeus => "Zeus"@,
        Bodies::Kronos => "Kronos"@,
        Bodies::Apollon => "Apollon"@,
        Bodies::Admetos => "Admetos"@,
        Bodies::Vulkanus => "Vulkanus"@,
        Bodies::Poseidon => "Poseidon"@,
        Bodies::Isis => "Isis"@,
        Bodies::Nibiru => "Nibiru"@,
        Bodies::Harrington => "Harrington"@,
        Bodies::NeptuneLeverrier => "NeptuneLeverrier"@,
        Bodies::NeptuneAdams => "NeptuneAdams"@,
        Bodies::PlutoLowell => "PlutoLowell"@,
        Bodies::PlutoPickering => "PlutoPickering"@,
        Bodies::Vulcan => "Vulcan"@,
        Bodies::WhiteMoon => "WhiteMoon"@,
        Bodies::Proserpina => "Proserpina"@,
        Bodies::Waldemath => "Waldemath"@,
        Bodies::AsteroidAstera => "AsteroidAstera"@,
        Bodies::AsteroidHebe => "AsteroidHebe"@,
        Bodies::AsteroidIris => "AsteroidIris"@,
        Bodies::AsteroidFlora => "AsteroidFlora"@,
        Bodies::AsteroidMetis => "AsteroidMetis"@,
        Bodies::AsteroidHygiea => "AsteroidHygiea"@,
        Bodies::AsteroidUrania => "AsteroidUrania"@,
        Bodies::AsteroidIsis => "AsteroidIsis"@,
        Bodies::AsteroidHilda => "AsteroidHilda"@,
        Bodies::AsteroidPhilosophia => "AsteroidPhilosophia"@,
        Bodies::AsteroidSophia => "AsteroidSophia"@,
        Bodies::AsteroidAletheia => "AsteroidAletheia"@,
        Bodies::AsteroidSapientia => "AsteroidSapientia"@,
        Bodies::AsteroidThule => "AsteroidThule"@,
        Bodies::AsteroidUrsula => "AsteroidUrsula"@,
        Bodies::AsteroidEros => "AsteroidEros"@,
        Bodies::AsteroidCupido => "AsteroidCupido"@,
        Bodies::AsteroidHidalgo => "AsteroidHidalgo"@,
        Bodies::AsteroidLilith => "AsteroidLilith"@,
        Bodies::AsteroidAmor => "AsteroidAmor"@,
        Bodies::AsteroidKama => "AsteroidKama"@,
        Bodies::AsteroidAphrodite => "AsteroidAphrodite"@,
        Bodies::AsteroidApollo => "AsteroidApollo"@,
        Bodies::AsteroidDamocles => "AsteroidDamocles"@,
        Bodies::AsteroidCruithne => "AsteroidCruithne"@,
        Bodies::AsteroidPoseidon => "AsteroidPoseidon"@,
        Bodies::AsteroidVulcano => "AsteroidVulcano"@,
        Bodies::AsteroidZeus => "AsteroidZeus"@,
        Bodies::AsteroidNessus => "AsteroidNessus"@,
    }
}

/// Colour of a body: one of its own for the Sun to Pluto, grey for the others.
pub open spec fn spec_body_color(b: Bodies) -> i32 {
    match b {
        Bodies::Sun => 0xffa300,
        Bodies::Moon => 0xb5b510,
        Bodies::Mercury => 0x6900ff,
        Bodies::Venus => 0xff009e,
        Bodies::Mars => 0xff1212,
        Bodies::Jupiter => 0x12a5ff,
        Bodies::Saturn => 0xcc0000,
        Bodies::Uranus => 0xa89402,
        Bodies::Neptune => 0x00b526,
        Bodies::Pluto => 0xbf3a3a,
        _ => GRAY,
    }
}

/// Display text of a body in `lang`: a translation where there is one, else its name.
pub open spec fn spec_body_text(b: Bodies, lang: Language) -> Seq<char> {
    match lang {
        Language::English => match b {
            Bodies::TrueNode => "North node"@,
            Bodies::SouthNode => "South node"@,
            Bodies::FortunaPart => "Fortuna part"@,
            _ => spec_body_name(b),
        },
        Language::French => match b {
            Bodies::Sun => "Soleil"@,
            Bodies::Moon => "Lune"@,
            Bodies::Mercury => "Mercure"@,
            Bodies::Venus => "Venus"@,
            Bodies::Mars => "Mars"@,
            Bodies::Jupiter => "Jupiter"@,
            Bodies::Saturn => "Saturne"@,
            Bodies::Uranus => "Uranus"@,
            Bodies::Neptune => "Neptune"@,
            Bodies::Pluto => "Pluton"@,
            Bodies::TrueNode => "Noeud nord"@,
            Bodies::Chiron => "Chiron"@,
            Bodies::Ceres => "Ceres"@,
            Bodies::SouthNode => "Noeud sud"@,
            Bodies::FortunaPart => "Part de fortune"@,
            _ => spec_body_name(b),
        },
    }
}

impl Bodies {
    /// Catalogue number of the body.
    pub fn catalogue_number(self) -> (r: i32)
        ensures
            r as int == spec_catalogue_number(self),
    {
        match self {
            Bodies::EclNut => -1,
            Bodies::Sun => 0,
            Bodies::Moon => 1,
            Bodies::Mercury => 2,
            Bodies::Venus => 3,
            Bodies::Mars => 4,
            Bodies::Jupiter => 5,
            Bodies::Saturn => 6,
            Bodies::Uranus => 7,
            Bodies::Neptune => 8,
            Bodies::Pluto => 9,
            Bodies::MeanNode => 10,
            Bodies::TrueNode => 11,
            Bodies::MeanApog => 12,
            Bodies::OscuApog => 13,
            Bodies::Earth => 14,
            Bodies::Chiron => 15,
            Bodies::Pholus => 16,
            Bodies::Ceres => 17,
            Bodies::Pallas => 18,
            Bodies::Juno => 19,
            Bodies::Vesta => 20,
            Bodies::IntpApog => 21,
            Bodies::IntpPerg => 22,
            Bodies::NPlanets => 23,
            Bodies::SouthNode => 24,
            Bodies::FortunaPart => 25,
            Bodies::Comets => COMETS_OFFSET,
            Bodies::Asteroids => 10000,
            Bodies::Cupido => 40,
            Bodies::Hades => 41,
            Bodies::Zeus => 42,
            Bodies::Kronos => 43,
            Bodies::Apollon => 44,
            Bodies::Admetos => 45,
            Bodies::Vulkanus => 46,
            Bodies::Poseidon => 47,
            Bodies::Isis => 48,
            Bodies::Nibiru => 49,
            Bodies::Harrington => 50,
            Bodies::NeptuneLeverrier => 51,
            Bodies::NeptuneAdams => 52,
            Bodies::PlutoLowell => 53,
            Bodies::PlutoPickering => 54,
            Bodies::Vulcan => 55,
            Bodies::WhiteMoon => 56,
            Bodies::Proserpina => 57,
            Bodies::Waldemath => 58,
            Bodies::AsteroidAstera => ASTEROID_OFFSET + 5,
            Bodies::AsteroidHebe => ASTEROID_OFFSET + 6,
            Bodies::AsteroidIris => ASTEROID_OFFSET + 7,
            Bodies::AsteroidFlora => ASTEROID_OFFSET + 8,
            Bodies::AsteroidMetis => ASTEROID_OFFSET + 9,
            Bodies::AsteroidHygiea => ASTEROID_OFFSET + 10,
            Bodies::AsteroidUrania => ASTEROID_OFFSET + 30,
            Bodies::AsteroidIsis => ASTEROID_OFFSET + 42,
            Bodies::AsteroidHilda => ASTEROID_OFFSET + 153,
            Bodies::AsteroidPhilosophia => ASTEROID_OFFSET + 227,
            Bodies::AsteroidSophia => ASTEROID_OFFSET + 251,
            Bodies::AsteroidAletheia => ASTEROID_OFFSET + 259,
            Bodies::AsteroidSapientia => ASTEROID_OFFSET + 275,
            Bodies::AsteroidThule => ASTEROID_OFFSET + 279,
            Bodies::AsteroidUrsula => ASTEROID_OFFSET + 375,
            Bodies::AsteroidEros => ASTEROID_OFFSET + 433,
            Bodies::AsteroidCupido => ASTEROID_OFFSET + 763,
            Bodies::AsteroidHidalgo => ASTEROID_OFFSET + 944,
            Bodies::AsteroidLilith => ASTEROID_OFFSET + 1181,
            Bodies::AsteroidAmor => ASTEROID_OFFSET + 1221,
            Bodies::AsteroidKama => ASTEROID_OFFSET + 1387,
            Bodies::AsteroidAphrodite => ASTEROID_OFFSET + 1388,
            Bodies::AsteroidApollo => ASTEROID_OFFSET + 1862,
            Bodies::AsteroidDamocles => ASTEROID_OFFSET + 3553,
            Bodies::AsteroidCruithne => ASTEROID_OFFSET + 3753,
            Bodies::AsteroidPoseidon => ASTEROID_OFFSET + 4341,
            Bodies::AsteroidVulcano => ASTEROID_OFFSET + 4464,
            Bodies::AsteroidZeus => ASTEROID_OFFSET + 5731,
            Bodies::AsteroidNessus => ASTEROID_OFFSET + 7066,
        }
    }

    /// Category of the body, read from its catalogue number.
    pub fn object_type(self) -> (r: ObjectType)
        ensures
            r == category_of_number(spec_catalogue_number(self)),
    {
        category_of(self.catalogue_number())
    }

    /// RGB colour of the body; both themes use the same colours.
    pub fn object_color(self, theme: Theme) -> (r: i32)
        ensures
            r == spec_body_color(self),
    {
        match self {
            Bodies::Sun => 0xffa300,
            Bodies::Moon => 0xb5b510,
            Bodies::Mercury => 0x6900ff,
            Bodies::Venus => 0xff009e,
            Bodies::Mars => 0xff1212,
            Bodies::Jupiter => 0x12a5ff,
            Bodies::Saturn => 0xcc0000,
            Bodies::Uranus => 0xa89402,
            Bodies::Neptune => 0x00b526,
            Bodies::Pluto => 0xbf3a3a,
            _ => GRAY,
        }
    }

    /// Name of the body: the identifier of its variant.
    pub fn name(self) -> (r: &'static str)
        ensures
            r@ == spec_body_name(self),
    {
        match self {
            Bodies::EclNut => "EclNut",
            Bodies::Sun => "Sun",
            Bodies::Moon => "Moon",
            Bodies::Mercury => "Mercury",
            Bodies::Venus => "Venus",
            Bodies::Mars => "Mars",
            Bodies::Jupiter => "Jupiter",
            Bodies::Saturn => "Saturn",
            Bodies::Uranus => "Uranus",
            Bodies::Neptune => "Neptune",
            Bodies::Pluto => "Pluto",
            Bodies::MeanNode => "MeanNode",
            Bodies::TrueNode => "TrueNode",
            Bodies::MeanApog => "MeanApog",
            Bodies::OscuApog => "OscuApog",
            Bodies::Earth => "Earth",
            Bodies::Chiron => "Chiron",
            Bodies::Pholus => "Pholus",
            Bodies::Ceres => "Ceres",
            Bodies::Pallas => "Pallas",
            Bodies::Juno => "Juno",
            Bodies::Vesta => "Vesta",
            Bodies::IntpApog => "IntpApog",
            Bodies::IntpPerg => "IntpPerg",
            Bodies::NPlanets => "NPlanets",
            Bodies::SouthNode => "SouthNode",
            Bodies::FortunaPart => "FortunaPart",
            Bodies::Comets => "Comets",
            Bodies::Asteroids => "Asteroids",
            Bodies::Cupido => "Cupido",
            Bodies::Hades => "Hades",
            Bodies::Zeus => "Zeus",
            Bodies::Kronos => "Kronos",
            Bodies::Apollon => "Apollon",
            Bodies::Admetos => "Admetos",
            Bodies::Vulkanus => "Vulkanus",
            Bodies::Poseidon => "Poseidon",
            Bodies::Isis => "Isis",
            Bodies::Nibiru => "Nibiru",
            Bodies::Harrington => "Harrington",
            Bodies::NeptuneLeverrier => "NeptuneLeverrier",
            Bodies::NeptuneAdams => "NeptuneAdams",
            Bodies::PlutoLowell => "PlutoLowell",
            Bodies::PlutoPickering => "PlutoPickering",
            Bodies::Vulcan => "Vulcan",
            Bodies::WhiteMoon => "WhiteMoon",
            Bodies::Proserpina => "Proserpina",
            Bodies::Waldemath => "Waldemath",
            Bodies::AsteroidAstera => "AsteroidAstera",
            Bodies::AsteroidHebe => "AsteroidHebe",
            Bodies::AsteroidIris => "AsteroidIris",
            Bodies::AsteroidFlora => "AsteroidFlora",
            Bodies::AsteroidMetis => "AsteroidMetis",
            Bodies::AsteroidHygiea => "AsteroidHygiea",
            Bodies::AsteroidUrania => "AsteroidUrania",
            Bodies::AsteroidIsis => "AsteroidIsis",
            Bodies::AsteroidHilda => "AsteroidHilda",
            Bodies::AsteroidPhilosophia => "AsteroidPhilosophia",
            Bodies::AsteroidSophia => "AsteroidSophia",
            Bodies::AsteroidAletheia => "AsteroidAletheia",
            Bodies::AsteroidSapientia => "AsteroidSapientia",
            Bodies::AsteroidThule => "AsteroidThule",
            Bodies::AsteroidUrsula => "AsteroidUrsula",
            Bodies::AsteroidEros => "AsteroidEros",
            Bodies::AsteroidCupido => "AsteroidCupido",
            Bodies::AsteroidHidalgo => "AsteroidHidalgo",
            Bodies::AsteroidLilith => "AsteroidLilith",
            Bodies::AsteroidAmor => "AsteroidAmor",
            Bodies::AsteroidKama => "AsteroidKama",
            Bodies::AsteroidAphrodite => "AsteroidAphrodite",
            Bodies::AsteroidApollo => "AsteroidApollo",
            Bodies::AsteroidDamocles => "AsteroidDamocles",
            Bodies::AsteroidCruithne => "AsteroidCruithne",
            Bodies::AsteroidPoseidon => "AsteroidPoseidon",
            Bodies::AsteroidVulcano => "AsteroidVulcano",
            Bodies::AsteroidZeus => "AsteroidZeus",
            Bodies::AsteroidNessus => "AsteroidNessus",
        }
    }

    /// Display text of the body in `lang`.
    pub fn text(self, lang: Language) -> (r: String)
        ensures
            r@ == spec_body_text(self, lang),
    {
        let s: &str = match lang {
            Language::English => match self {
                Bodies::TrueNode => "North node",
                Bodies::SouthNode => "South node",
                Bodies::FortunaPart => "Fortuna part",
                _ => self.name(),
            },
            Language::French => match self {
                Bodies::Sun => "Soleil",
                Bodies::Moon => "Lune",
                Bodies::Mercury => "Mercure",
                Bodies::Venus => "Venus",
                Bodies::Mars => "Mars",
                Bodies::Jupiter => "Jupiter",
                Bodies::Saturn => "Saturne",
                Bodies::Uranus => "Uranus",
                Bodies::Neptune => "Neptune",
                Bodies::Pluto => "Pluton",
                Bodies::TrueNode => "Noeud nord",
                Bodies::Chiron => "Chiron",
                Bodies::Ceres => "Ceres",
                Bodies::SouthNode => "Noeud sud",
                Bodies::FortunaPart => "Part de fortune",
                _ => self.name(),
            },
        };
        String::from_str(s)
    }
}

/// Direction of a body's apparent motion along the ecliptic.
#[derive(Debug, Clone, Copy, PartialEq, Eq, Structural)]
pub enum ObjectPos {
    Stationary,
    Direct,
    Retrograde,
}

/// A body's position in a chart.
#[derive(Debug, Clone)]
pub struct Object {
    pub object_enum: Bodies,
    pub object_name: String,
    pub object_type: ObjectType,
    /// Ecliptic longitude, micro-degrees.
    pub longitude: i64,
    /// Ecliptic latitude, micro-degrees.
    pub latitude: i64,
    /// Speed in longitude, micro-degrees per day.
    pub speed_longitude: i64,
    pub object_pos: ObjectPos,
    pub split: SplitDegResult,
}

impl Object {
    /// A body's position, with its motion read from its speed and its
    /// longitude split into sign, degrees, minutes and seconds.
    pub fn new(
        object_enum: Bodies,
        object_name: &str,
        object_type: ObjectType,
        longitude: i64,
        latitude: i64,
        speed_longitude: i64,
    ) -> (r: Object)
        ensures
            r.object_enum == object_enum,
            r.object_name@ == object_name@,
            r.object_type == object_type,
            r.longitude == longitude,
            r.latitude == latitude,
            r.speed_longitude == speed_longitude,
            r.object_pos == spec_motion_state(speed_longitude as int),
            r.split.splits(longitude as int),
    {
        Object {
            object_enum,
            object_name: String::from_str(object_name),
            object_type,
            longitude,
            latitude,
            speed_longitude,
            object_pos: motion_state(speed_longitude),
            split: split_deg(longitude),
        }
    }
}

/// A house cusp of a chart.
#[derive(Debug, Clone)]
pub struct House {
    /// Number of the house, 1 to 12.
    pub object_id: i32,
    /// Ecliptic longitude of the cusp, micro-degrees.
    pub longitude: i64,
    pub split: SplitDegResult,
    pub angle: Angle,
}

impl House {
    /// A house cusp, with its longitude split into sign, degrees, minutes and seconds.
    pub fn new(object_id: i32, longitude: i64, angle: Angle) -> (r: House)
        ensures
            r.object_id == object_id,
            r.longitude == longitude,
            r.split.splits(longitude as int),
            r.angle == angle,
    {
        House { object_id, longitude, split: split_deg(longitude), angle }
    }
}

/// The angle of the chart that a house cusp marks, if any.
#[derive(Debug, Clone, Copy, PartialEq, Eq, Structural)]
pub enum Angle {
    Nothing,
    /// Ascendant.
    Asc,
    /// Imum Coeli (Fundus Coeli).
    Fc,
    /// Descendant.
    Desc,
    /// Midheaven (Medium Coeli).
    Mc,
}

/// Calendar of a date.
#[derive(Debug, Clone, Copy, PartialEq, Eq, Structural)]
pub enum Calendar {
    Julian,
    Gregorian,
}

impl Calendar {
    /// Code of the calendar for the ephemeris: 0 Julian, 1 Gregorian.
    pub fn code(self) -> (r: i32)
        ensures
            r == (match self {
                Calendar::Julian => 0i32,
                Calendar::Gregorian => 1i32,
            }),
    {
        match self {
            Calendar::Julian => 0,
            Calendar::Gregorian => 1,
        }
    }
}

/// House systems with a name of their own.
#[derive(Debug, Clone, Copy, PartialEq, Eq, Structural)]
pub enum HouseSystem {
    Campanus,
    Equal,
    Koch,
    Placidus,
    Porphyrius,
    Regiomontanus,
    WholeSign,
}

/// Calculation flags of the ephemeris, one per variant.
#[allow(clippy::upper_case_acronyms)]
#[derive(Debug, Clone, Copy, PartialEq, Eq, Structural)]
pub enum OptionalFlag {
    JplEph,
    SwissEph,
    Moshier,
    Heliocentric,
    TruePosition,
    J2000Equinox,
    NoNutation,
    Speed3,
    Speed,
    NoGravitanionalDeflection,
    NoAnnualAberration,
    AstronomicPosition,
    EquatorialPosition,
    XYZCartesianNotPolarCoordinate,
    Radians,
    BarycentricPosition,
    TopocentricPosition,
    SideralPosition,
    ICRS,
    Dpsideps1980,
    JplHorApprox,
}

/// Bit value of a calculation flag; astrometric positions combine the two
/// flags that turn off aberration and gravitational deflection.
pub open spec fn spec_flag_value(f: OptionalFlag) -> int {
    match f {
        OptionalFlag::JplEph => 1,
        OptionalFlag::SwissEph => 2,
        OptionalFlag::Moshier => 4,
        OptionalFlag::Heliocentric => 8,
        OptionalFlag::TruePosition => 16,
        OptionalFlag::J2000Equinox => 32,
        OptionalFlag::NoNutation => 64,
        OptionalFlag::Speed3 => 128,
        OptionalFlag::Speed => 256,
        OptionalFlag::NoGravitanionalDeflection => 512,
        OptionalFlag::NoAnnualAberration => 1024,
        OptionalFlag::AstronomicPosition => 1536,
        OptionalFlag::EquatorialPosition => 2048,
        OptionalFlag::XYZCartesianNotPolarCoordinate => 4096,
        OptionalFlag::Radians => 8192,
        OptionalFlag::BarycentricPosition => 16384,
        OptionalFlag::TopocentricPosition => 32768,
        OptionalFlag::SideralPosition => 65536,
        OptionalFlag::ICRS => 131072,
        OptionalFlag::Dpsideps1980 => 262144,
        OptionalFlag::JplHorApprox => 524288,
    }
}

impl OptionalFlag {
    /// Bit value of the flag.
    pub fn value(self) -> (r: i32)
        ensures
            r as int == spec_flag_value(self),
    {
        assert(1024i32 | 512i32 == 1536i32) by (bit_vector);
        match self {
            OptionalFlag::JplEph => 1,
            OptionalFlag::SwissEph => 2,
            OptionalFlag::Moshier => 4,
            OptionalFlag::Heliocentric => 8,
            OptionalFlag::TruePosition => 16,
            OptionalFlag::J2000Equinox => 32,
            OptionalFlag::NoNutation => 64,
            OptionalFlag::Speed3 => 128,
            OptionalFlag::Speed => 256,
            OptionalFlag::NoGravitanionalDeflection => 512,
            OptionalFlag::NoAnnualAberration => 1024,
            OptionalFlag::AstronomicPosition => 1024 | 512,
            OptionalFlag::EquatorialPosition => 2 * 1024,
            OptionalFlag::XYZCartesianNotPolarCoordinate => 4 * 1024,
            OptionalFlag::Radians => 8 * 1024,
            OptionalFlag::BarycentricPosition => 16 * 1024,
            OptionalFlag::TopocentricPosition => 32 * 1024,
            OptionalFlag::SideralPosition => 64 * 1024,
            OptionalFlag::ICRS => 128 * 1024,
            OptionalFlag::Dpsideps1980 => 256 * 1024,
            OptionalFlag::JplHorApprox => 512 * 1024,
        }
    }
}

/// The aspects: named angles between two bodies.
#[derive(Debug, Clone, Copy, PartialEq, Eq, Structural)]
pub enum Aspects {
    Conjunction,
    Opposition,
    Trine,
    Square,
    Sextile,
    Inconjunction,
    Sesquisquare,
    Semisquare,
    Semisextile,
}

/// Exact angle and orb of an aspect, in degrees.
pub open spec fn spec_aspect_angle(a: Aspects) -> (u16, u16) {
    match a {
        Aspects::Conjunction => (0u16, 10u16),
        Aspects::Opposition => (180u16, 8u16),
        Aspects::Trine => (120u16, 7u16),
        Aspects::Square => (90u16, 6u16),
        Aspects::Sextile => (60u16, 5u16),
        Aspects::Inconjunction => (150u16, 2u16),
        Aspects::Sesquisquare => (135u16, 1u16),
        Aspects::Semisquare => (45u16, 1u16),
        Aspects::Semisextile => (30u16, 1u16),
    }
}

/// The major aspects: conjunction, opposition, trine, square and sextile.
pub open spec fn spec_is_major(a: Aspects) -> bool {
    a is Conjunction || a is Opposition || a is Trine || a is Square || a is Sextile
}

/// Name of an aspect in `lang`.
pub open spec fn spec_aspect_text(a: Aspects, lang: Language) -> Seq<char> {
    match lang {
        Language::English => match a {
            Aspects::Conjunction => "Conjunction"@,
            Aspects::Opposition => "Opposition"@,
            Aspects::Trine => "Trine"@,
            Aspects::Square => "Square"@,
            Aspects::Sextile => "Sextile"@,
            Aspects::Inconjunction => "Inconjunction"@,
            Aspects::Sesquisquare => "Sesquisquare"@,
            Aspects::Semisquare => "Semisquare"@,
            Aspects::Semisextile => "Semisextile"@,
        },
        Language::French => match a {
            Aspects::Conjunction => "Conjonction"@,
            Aspects::Opposition => "Opposition"@,
            Aspects::Trine => "Trigone"@,
            Aspects::Square => "Quadrature"@,
            Aspects::Sextile => "Sextile"@,
            Aspects::Inconjunction => "Quinconce"@,
            Aspects::Sesquisquare => "Sesqui-carré"@,
            Aspects::Semisquare => "Demi-carré"@,
            Aspects::Semisextile => "Demi-sextile"@,
        },
    }
}

impl Aspects {
    /// Exact angle and orb of the aspect, in degrees.
    pub fn angle(self) -> (r: (u16, u16))
        ensures
            r == spec_aspect_angle(self),
    {
        match self {
            Aspects::Conjunction => (0, 10),
            Aspects::Opposition => (180, 8),
            Aspects::Trine => (120, 7),
            Aspects::Square => (90, 6),
            Aspects::Sextile => (60, 5),
            Aspects::Inconjunction => (150, 2),
            Aspects::Sesquisquare => (135, 1),
            Aspects::Semisquare => (45, 1),
            Aspects::Semisextile => (30, 1),
        }
    }

    /// Whether the aspect is a major one.
    pub fn maj(self) -> (r: bool)
        ensures
            r == spec_is_major(self),
    {
        matches!(
            self,
            Aspects::Conjunction | Aspects::Opposition | Aspects::Trine | Aspects::Square
                | Aspects::Sextile
        )
    }

    /// Name of the aspect in `lang`.
    pub fn text(self, lang: Language) -> (r: String)
        ensures
            r@ == spec_aspect_text(self, lang),
    {
        let s: &str = match lang {
            Language::English => match self {
                Aspects::Conjunction => "Conjunction",
                Aspects::Opposition => "Opposition",
                Aspects::Trine => "Trine",
                Aspects::Square => "Square",
                Aspects::Sextile => "Sextile",
                Aspects::Inconjunction => "Inconjunction",
                Aspects::Sesquisquare => "Sesquisquare",
                Aspects::Semisquare => "Semisquare",
                Aspects::Semisextile => "Semisextile",
            },
            Language::French => match self {
                Aspects::Conjunction => "Conjonction",
                Aspects::Opposition => "Opposition",
                Aspects::Trine => "Trigone",
                Aspects::Square => "Quadrature",
                Aspects::Sextile => "Sextile",
                Aspects::Inconjunction => "Quinconce",
                Aspects::Sesquisquare => "Sesqui-carré",
                Aspects::Semisquare => "Demi-carré",
                Aspects::Semisextile => "Demi-sextile",
            },
        };
        String::from_str(s)
    }
}

/// A selection of aspects.
#[derive(Debug, Clone, Copy, PartialEq, Eq, Structural)]
pub enum AspectsFilter {
    AllAspects,
    AllMajorsAspects,
    Conjunction,
    Opposition,
    Trine,
    Square,
    Sextile,
    AllMinorsAspect,
    Inconjunction,
    Sesquisquare,
    Semisquare,
    Semisextile,
    NoAspects,
}

/// The aspects that a filter selects, in the order of the aspect table.
pub open spec fn spec_filter_aspects(f: AspectsFilter) -> Seq<Aspects> {
    match f {
        AspectsFilter::AllAspects => seq![
            Aspects::Conjunction,
            Aspects::Opposition,
            Aspects::Trine,
            Aspects::Square,
            Aspects::Sextile,
            Aspects::Inconjunction,
            Aspects::Sesquisquare,
            Aspects::Semisquare,
            Aspects::Semisextile,
        ],
        AspectsFilter::AllMajorsAspects => seq![
            Aspects::Conjunction,
            Aspects::Opposition,
            Aspects::Trine,
            Aspects::Square,
            Aspects::Sextile,
        ],
        AspectsFilter::Conjunction => seq![Aspects::Conjunction],
        AspectsFilter::Opposition => seq![Aspects::Opposition],
        AspectsFilter::Trine => seq![Aspects::Trine],
        AspectsFilter::Square => seq![Aspects::Square],
        AspectsFilter::Sextile => seq![Aspects::Sextile],
        AspectsFilter::AllMinorsAspect => seq![
            Aspects::Inconjunction,
            Aspects::Sesquisquare,
            Aspects::Semisquare,
            Aspects::Semisextile,
        ],
        AspectsFilter::Inconjunction => seq![Aspects::Inconjunction],
        AspectsFilter::Sesquisquare => seq![Aspects::Sesquisquare],
        AspectsFilter::Semisquare => seq![Aspects::Semisquare],
        AspectsFilter::Semisextile => seq![Aspects::Semisextile],
        AspectsFilter::NoAspects => Seq::empty(),
    }
}

/// Whether a filter selects the aspect `a`.
pub open spec fn filter_includes(f: AspectsFilter, a: Aspects) -> bool {
    match f {
        AspectsFilter::AllAspects => true,
        AspectsFilter::AllMajorsAspects => spec_is_major(a),
        AspectsFilter::AllMinorsAspect => !spec_is_major(a),
        AspectsFilter::Conjunction => a is Conjunction,
        AspectsFilter::Opposition => a is Opposition,
        AspectsFilter::Trine => a is Trine,
        AspectsFilter::Square => a is Square,
        AspectsFilter::Sextile => a is Sextile,
        AspectsFilter::Inconjunction => a is Inconjunction,
        AspectsFilter::Sesquisquare => a is Sesquisquare,
        AspectsFilter::Semisquare => a is Semisquare,
        AspectsFilter::Semisextile => a is Semisextile,
        AspectsFilter::NoAspects => false,
    }
}

impl AspectsFilter {
    /// The aspects that the filter selects, in the order of the aspect table.
    pub fn vec_aspects(self) -> (r: Vec<Aspects>)
        ensures
            r@ == spec_filter_aspects(self),
    {
        match self {
            AspectsFilter::AllAspects => vec![
                Aspects::Conjunction,
                Aspects::Opposition,
                Aspects::Trine,
                Aspects::Square,
                Aspects::Sextile,
                Aspects::Inconjunction,
                Aspects::Sesquisquare,
                Aspects::Semisquare,
                Aspects::Semisextile,
            ],
            AspectsFilter::AllMajorsAspects => vec![
                Aspects::Conjunction,
                Aspects::Opposition,
                Aspects::Trine,
                Aspects::Square,
                Aspects::Sextile,
            ],
            AspectsFilter::Conjunction => vec![Aspects::Conjunction],
            AspectsFilter::Opposition => vec![Aspects::Opposition],
            AspectsFilter::Trine => vec![Aspects::Trine],
            AspectsFilter::Square => vec![Aspects::Square],
            AspectsFilter::Sextile => vec![Aspects::Sextile],
            AspectsFilter::AllMinorsAspect => vec![
                Aspects::Inconjunction,
                Aspects::Sesquisquare,
                Aspects::Semisquare,
                Aspects::Semisextile,
            ],
            AspectsFilter::Inconjunction => vec![Aspects::Inconjunction],
            AspectsFilter::Sesquisquare => vec![Aspects::Sesquisquare],
            AspectsFilter::Semisquare => vec![Aspects::Semisquare],
            AspectsFilter::Semisextile => vec![Aspects::Semisextile],
            AspectsFilter::NoAspects => Vec::new(),
        }
    }
}

} // verus!
