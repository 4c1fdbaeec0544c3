//! Constants of the ephemeris interface: calculation flags, ayanamshas,
//! house systems, and the methods of the rise/transit and node/apside searches.

use vstd::prelude::*;

verus! {

/// Calculation flags of the ephemeris; flags combine by bitwise or.
pub struct CalculationFlags;

impl CalculationFlags {
    /// Use JPL ephemeris.
    pub const JPL_EPHEMERIS: i32 = 1;

    /// Use SWISSEPH ephemeris, default.
    pub const SWISS_EPHEMERIS: i32 = 2;

    /// Use Moshier ephemeris.
    pub const MOSHIER_EPHEMERIS: i32 = 4;

    /// Return heliocentric position.
    pub const HELIOCENTRIC_POSITIONS: i32 = 8;

    /// Return true geometric positions, not apparent.
    pub const TRUE_POSITIONS: i32 = 16;

    /// No precession, i.e. give J2000 equinox.
    pub const NO_PROCESSION_J2000: i32 = 32;

    /// No nutation, i.e. mean equinox of date.
    pub const MEAN_EQUINOX_OF_DATE_NO_NUTATION: i32 = 64;

    /// High precision speed (analyt. comp.).
    pub const SPEED_PRECISION: i32 = 256;

    /// Turn off gravitational deflection.
    pub const NO_GRAVITY_DEFLECTION: i32 = 512;

    /// Turn off 'annual' aberration of light.
    pub const NO_ABERRATION: i32 = 1024;

    /// Astrometric positions. With light-time, without aberration and light deflection.
    pub const ASTROMETRIC_POSITIONS: i32 = 1536;

    /// Equatorial positions are wanted (incl. declination).
    pub const EQUATORIAL_POSITIONS: i32 = 2048;

    /// Cartesian, not polar, coordinates.
    pub const CARTESIAN_COORDINATES: i32 = 4096;

    /// Coordinates in radians, not degrees.
    pub const RADIAN_COORDINATES: i32 = 8192;

    /// Barycentric positions.
    pub const BARYCENTRIC_POSITIONS: i32 = 16384;

    /// Topocentric positions.
    pub const TOPOCENTRIC_POSITIONS: i32 = 32768;

    /// Tropical positions, the default.
    pub const TROPICAL_POSITIONS: i32 = 0;

    /// Sidereal positions.
    pub const SIDEREAL_POSITIONS: i32 = 65536;

    /// ICRS (DE406 reference frame).
    pub const ICRS: i32 = 131072;

    /// Reproduce JPL Horizons 1962 - today to 0.002 arcsec.
    pub const JPL_HORIZONS: i32 = 262144;

    /// Approximate JPL Horizons 1962 - today.
    pub const APPROXIMATE_JPL_HORIZONS: i32 = 524288;

    /// Calculate position of center of body (COB) of planet, not barycenter of its system.
    pub const CENTER_BODY: i32 = 1048576;
}

/// Ayanamshas: the sidereal modes of the ephemeris.
#[derive(Debug, Clone, Copy, PartialEq)]
pub struct Ayanamsha;

impl Ayanamsha {
    /// Fagan/Bradley.
    pub const FAGAN_BRADLEY: i32 = 0;

    /// Lahiri.
    pub const LAHIRI: i32 = 1;

    /// De Luce.
    pub const DE_LUCE: i32 = 2;

    /// Raman.
    pub const RAMAN: i32 = 3;

    /// Usha/Shashi.
    pub const USHA_SHASHI: i32 = 4;

    /// Krishnamurti.
    pub const KRISHNAMURTI: i32 = 5;

    /// Djwhal Khul.
    pub const DJWHAL_KHUL: i32 = 6;

    /// Yukteshwar.
    pub const YUKTESHWAR: i32 = 7;

    /// J.N. Bhasin.
    pub const JN_BHASIN: i32 = 8;

    /// Babylonian/Kugler 1.
    pub const BABYLONIAN_KUGLER_1: i32 = 9;

    /// Babylonian/Kugler 2.
    pub const BABYLONIAN_KUGLER_2: i32 = 10;

    /// Babylonian/Kugler 3.
    pub const BABYLONIAN_KUGLER_3: i32 = 11;

    /// Babylonian/Huber.
    pub const BABYLONIAN_HUBER: i32 = 12;

    /// Babylonian/Eta Piscium.
    pub const BABYLONIAN_ETA_PISCIUM: i32 = 13;

    /// Babylonian/Aldebaran = 15 Tau.
    pub const BABYLONIAN_ALDEBARAN_15_TAU: i32 = 14;

    /// Hipparchos.
    pub const HIPPARCHOS: i32 = 15;

    /// Sassanian.
    pub const SASSANIAN: i32 = 16;

    /// Galactic Center = 0 Sag.
    pub const GALACTIC_CENTER_0_SAG: i32 = 17;

    /// J2000.
    pub const J2000: i32 = 18;

    /// J1900.
    pub const J1900: i32 = 19;

    /// B1950.
    pub const B1950: i32 = 20;

    /// Suryasiddhanta.
    pub const SURYASIDDHANTA: i32 = 21;

    /// Suryasiddhanta, mean Sun.
    pub const SURYASIDDHANTA_MEAN_SUN: i32 = 22;

    /// Aryabhata.
    pub const ARYABHATA: i32 = 23;

    /// Aryabhata, mean Sun.
    pub const ARYABHATA_MEAN_SUN: i32 = 24;

    /// SS Revati.
    pub const SS_REVATI: i32 = 25;

    /// SS Citra.
    pub const SS_CITRA: i32 = 26;

    /// True Citra.
    pub const TRUE_CITRA: i32 = 27;

    /// True Revati.
    pub const TRUE_REVATI: i32 = 28;

    /// True Pushya (PVRN Rao).
    pub const TRUE_PUSHYA: i32 = 29;

    /// Galactic Center (Gil Brand).
    pub const GALACTIC_CENTER_GIL_BRAND: i32 = 30;

    /// Galactic Equator (IAU1958).
    pub const GALACTIC_EQUATOR_IAU1958: i32 = 31;

    /// Galactic Equator.
    pub const GALACTIC_EQUATOR_TRUE: i32 = 32;

    /// Galactic Equator mid-Mula.
    pub const GALACTIC_EQUATOR_MID_MULA: i32 = 33;

    /// Skydram (Mardyks).
    pub const GALACTIC_ALIGNMENT_SKYDRAM_MARDYKS: i32 = 34;

    /// True Mula (Chandra Hari).
    pub const TRUE_MULA_CHANDRA_HARI: i32 = 35;

    /// Dhruva/Gal.Center/Mula (Wilhelm).
    pub const GALACTIC_CENTER_MULA_WILHELM: i32 = 36;

    /// Aryabhata 522.
    pub const ARYABHATA_522: i32 = 37;

    /// Babylonian/Britton.
    pub const BABYLONIAN_BRITTON: i32 = 38;

    /// "Vedic"/Sheoran.
    pub const VEDIC_SHEORAN: i32 = 39;

    /// Galactic Center (Cochrane) = 0 Cap.
    pub const GALACTIC_CENTER_COCHRANE_0_CAP: i32 = 40;

    /// Galactic Equator (Fiorenza).
    pub const GALACTIC_EQUATOR_FIORENZA: i32 = 41;

    /// Vettius Valens Moon.
    pub const VETTIUS_VALENS_MOON: i32 = 42;

    /// Lahiri 1940.
    pub const LAHIRI_1940: i32 = 43;

    /// Lahiri VP285.
    pub const LAHIRI_VP285: i32 = 44;

    /// Krishnamurti-Senthilathiban.
    pub const KRISHNAMURTI_SENTHILATHIBAN: i32 = 45;

    /// Lahiri ICRC.
    pub const LHIRI_ICRC: i32 = 45;
}

/// House systems, by the letter that the ephemeris knows them by.
///
/// Gauquelin sectors (`'G'`) are left out: they have 36 cusps, not 12.
#[derive(Debug, Clone, Copy, PartialEq)]
pub struct HouseSystems;

impl HouseSystems {
    /// Placidus.
    pub const PLACIDUS: char = 'P';

    /// Koch.
    pub const KOCH: char = 'K';

    /// Porphyrius.
    pub const PORPHYRIUS: char = 'O';

    /// Regiomontanus.
    pub const REGIOMONTANUS: char = 'R';

    /// Campanus.
    pub const CAMPANUS: char = 'C';

    /// Equal (cusp 1 is Ascendant).
    pub const EQUAL: char = 'E';

    /// Whole Sign.
    pub const WHOLE_SIGN: char = 'W';

    /// Alcabitus.
    pub const ALCABITUS: char = 'B';

    /// Equal MC (cusp 10 is MC).
    pub const EQUAL_MC: char = 'D';

    /// Carter "Poli-Equatorial".
    pub const CARTHER_POLI_EQUATORIAL: char = 'F';

    /// Azimuthal or horizontal system.
    pub const HORIZONTAL_SYSTEM: char = 'H';

    /// Sunshine (Makransky, solution Treindl).
    pub const SUNSHINE_TREINDL: char = 'I';

    /// Sunshine (Makransky, solution Makransky).
    pub const SUNSHINE_MAKRANSKY: char = 'i';

    /// Krusinski-Pisa-Goelzer Meridian system -> axial rotation.
    pub const KRUSINSKI_PISA_GOELZER: char = 'U';

    /// Morinus.
    pub const MORINUS: char = 'M';

    /// Polich/Page (topocentric system).
    pub const POLICH_PAGE_TOPOCENTRIC: char = 'T';

    /// Pullen SD (sinusoidal delta): ex Neo-Porphyry.
    pub const PULLEN_SINUSOIDAL_DELTA: char = 'L';

    /// Pullen SR (sinusoidal ratio).
    pub const PULLEN_SINUSOIDAL_RATIO: char = 'Q';

    /// Sripati Topocentric system -> Polich/Page.
    pub const SRIPATI_TOPOCENTRIC: char = 'S';

    /// Vehlow equal (Asc. in middle of house 1).
    pub const VEHLOW_EQUAL: char = 'V';

    /// APC houses.
    pub const APC_HOUSES: char = 'Y';

    /// Axial rotation system / Meridian system / Zariel.
    pub const MERIDIAN_HOUSES: char = 'X';

    /// Name of a house system, from the name that the ephemeris reports for
    /// its letter (`reported`): for whole signs the "equal/ " qualifier of
    /// that name is taken out, other names stand as reported.
    pub fn get_house_system_name(house_system: char, reported: &str) -> (r: String)
        ensures
            r@ == spec_house_system_name(house_system, reported@),
    {
        if house_system == HouseSystems::WHOLE_SIGN {
            remove_all(reported, WHOLE_SIGN_QUALIFIER)
        } else {
            String::from_str(reported)
        }
    }
}

/// The qualifier that the ephemeris puts before the name of the whole-sign system.
pub const WHOLE_SIGN_QUALIFIER: &'static str = "equal/ ";

/// Name of a house system from the reported name: see `get_house_system_name`.
pub open spec fn spec_house_system_name(house_system: char, reported: Seq<char>) -> Seq<char> {
    if house_system == 'W' {
        spec_remove_all(reported, WHOLE_SIGN_QUALIFIER@)
    } else {
        reported
    }
}

/// `s` with every occurrence of `pat` taken out, scanning from the left.
pub open spec fn spec_remove_all(s: Seq<char>, pat: Seq<char>) -> Seq<char>
    decreases s.len(),
{
    if pat.len() == 0 || s.len() < pat.len() {
        s
    } else if s.subrange(0, pat.len() as int) == pat {
        spec_remove_all(s.subrange(pat.len() as int, s.len() as int), pat)
    } else {
        seq![s[0]] + spec_remove_all(s.drop_first(), pat)
    }
}

/// Whether `pat` occurs in `s` at character position `i`.
fn occurs_at(s: &str, n: usize, i: usize, pat: &str, m: usize) -> (r: bool)
    requires
        n == s@.len(),
        m == pat@.len(),
        i + m <= n,
    ensures
        r == (s@.subrange(i as int, i + m) == pat@),
{
    let mut j: usize = 0;
    while j < m
        invariant
            n == s@.len(),
            m == pat@.len(),
            i + m <= n,
            j <= m,
            forall|k: int| 0 <= k < j ==> s@[i + k] == pat@[k],
        decreases m - j,
    {
        if s.get_char(i + j) != pat.get_char(j) {
            assert(s@.subrange(i as int, i + m)[j as int] != pat@[j as int]);
            return false;
        }
        j = j + 1;
    }
    assert(s@.subrange(i as int, i + m) =~= pat@);
    true
}

/// `s` with every occurrence of `pat` taken out, scanning from the left.
fn remove_all(s: &str, pat: &str) -> (r: String)
    ensures
        r@ == spec_remove_all(s@, pat@),
{
    let n = s.unicode_len();
    let m = pat.unicode_len();
    let mut out = String::new();
    if m == 0 || n < m {
        return String::from_str(s);
    }
    let mut i: usize = 0;
    assert(s@.subrange(0, n as int) =~= s@);
    while i <= n - m
        invariant
            n == s@.len(),
            m == pat@.len(),
            0 < m <= n,
            i <= n,
            spec_remove_all(s@, pat@) == out@ + spec_remove_all(
                s@.subrange(i as int, n as int),
                pat@,
            ),
        decreases n - i,
    {
        let rest = Ghost(s@.subrange(i as int, n as int));
        assert(rest@.subrange(0, m as int) =~= s@.subrange(i as int, i + m));
        if occurs_at(s, n, i, pat, m) {
            assert(rest@.subrange(m as int, rest@.len() as int) =~= s@.subrange(
                i + m,
                n as int,
            ));
            i = i + m;
        } else {
            assert(rest@.drop_first() =~= s@.subrange(i + 1, n as int));
            let c = s.substring_char(i, i + 1);
            assert(c@ =~= seq![rest@[0]]);
            out.append(c);
            assert(out@ + spec_remove_all(s@.subrange(i + 1, n as int), pat@) =~= out@.subrange(
                0,
                out@.len() - 1,
            ) + (seq![rest@[0]] + spec_remove_all(rest@.drop_first(), pat@)));
            i = i + 1;
        }
    }
    out.append(s.substring_char(i, n));
    out
}

/// Why a chart cannot be computed by the rules of this library.
#[derive(Debug, Clone, Copy, PartialEq, Eq, Structural)]
pub enum DomainError {
    /// The house system has no twelve cusps to name angles by (the
    /// Gauquelin sectors have 36).
    UnsupportedHouseSystem(char),
}

/// Letter of the Gauquelin sectors, a system of 36 cusps.
pub const GAUQUELIN_SECTORS: char = 'G';

/// Accepts a house system whose cusps the chart rules can read: every letter
/// but that of the Gauquelin sectors.
pub fn check_house_system(house_system: char) -> (r: Result<(), DomainError>)
    ensures
        house_system == GAUQUELIN_SECTORS ==> r == Err::<(), DomainError>(
            DomainError::UnsupportedHouseSystem(house_system),
        ),
        house_system != GAUQUELIN_SECTORS ==> r == Ok::<(), DomainError>(()),
{
    if house_system == GAUQUELIN_SECTORS {
        Err(DomainError::UnsupportedHouseSystem(house_system))
    } else {
        Ok(())
    }
}

/// Events that the rise and transit search looks for, and how.
pub struct CalculationMethodsRiseTransit;

impl CalculationMethodsRiseTransit {
    /// Rising.
    pub const RISE: i32 = 1;

    /// Setting.
    pub const SET: i32 = 2;

    /// Upper meridian transit (southern for northern geographic latitudes).
    pub const UPPER_MERIDIAN_TRANSIT: i32 = 4;

    /// Lower meridian transit (northern, below the horizon).
    pub const LOWER_MERIDIAN_TRANSIT: i32 = 8;

    /// Rising or setting of the disc centre.
    pub const DISC_CENTER: i32 = 256;

    /// Rising or setting of the lower limb of the disc.
    pub const DISC_BOTTOM: i32 = 8192;

    /// Geocentric rather than topocentric position, ecliptic latitude ignored.
    pub const GEOCENTRIC: i32 = 128;

    /// Refraction not considered.
    pub const NO_REFRACTION: i32 = 512;

    /// Civil twilight.
    pub const CIVIL_TWILIGHT: i32 = 1024;

    /// Nautical twilight.
    pub const NAUTICAL_TWILIGHT: i32 = 2048;

    /// Astronomical twilight.
    pub const ASTRONOMICAL_TWILIGHT: i32 = 4096;

    /// Effect of distance on the disc size neglected.
    pub const FIXED_DISC_SIZE: i32 = 16 * 1024;

    /// Hindu rising: disc centre, no refraction, geocentric.
    pub const HINDU_RISING: i32 = 256 + 512 + 128;
}

/// Methods of the search for planetary nodes and apsides. Mean nodes exist
/// for the Moon and Mercury to Neptune only; Pluto and the asteroids always
/// get true nodes.
pub struct CalculationMethodsNodesApsides;

impl CalculationMethodsNodesApsides {
    /// Mean nodes for the Moon and Mercury to Neptune, true nodes for Pluto and asteroids.
    pub const MEAN_NODES_AND_APSIDES: i32 = 1;

    /// Osculating (true) nodes for all bodies.
    pub const TRUE_NODES_AND_APSIDES: i32 = 2;

    /// Osculating nodes for all bodies, from barycentric positions beyond Jupiter.
    pub const TRUE_NODES_AND_APSIDES_BARYCENTRIC_AFTER_JU: i32 = 4;

    /// Mean nodes up to Neptune, from barycentric positions beyond Jupiter.
    pub const MEAN_NODES_AND_APSIDES_BARYCENTRIC_AFTER_JU: i32 = 5;

    /// The second focal point of the orbital ellipse in place of the aphelion.
    pub const SECOND_FOCAL_POINT_ORBITAL_ELLIPSE: i32 = 256;
}

} // verus!
