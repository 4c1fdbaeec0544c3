//! Angles as integer micro-degrees, and their normalisation on the circle.

use vstd::arithmetic::div_mod::lemma_mod_add_multiples_vanish;
use vstd::arithmetic::div_mod::lemma_mod_sub_multiples_vanish;
use vstd::prelude::*;

verus! {

/// Micro-degrees in one degree.
pub const UNITS_PER_DEGREE: i64 = 1_000_000;

/// A whole turn, 360°.
pub const FULL_CIRCLE: i64 = 360_000_000;

/// Half a turn, 180°.
pub const HALF_CIRCLE: i64 = 180_000_000;

/// A quarter turn, 90°.
pub const QUARTER_CIRCLE: i64 = 90_000_000;

/// The value in [0°, 360°) that differs from `x` by whole turns.
pub open spec fn circle_norm(x: int) -> int {
    x % (FULL_CIRCLE as int)
}

/// The value in (-180°, 180°] that differs from `x` by whole turns.
pub open spec fn signed_norm(x: int) -> int {
    let r = circle_norm(x);
    if r <= HALF_CIRCLE as int {
        r
    } else {
        r - FULL_CIRCLE as int
    }
}

/// The shortest signed turn that leads from `a` to `b`, in (-180°, 180°].
pub open spec fn spec_closest_distance(a: int, b: int) -> int {
    signed_norm(b - a)
}

/// The size of the gap between `a` and `b` on the circle, in [0°, 180°].
pub open spec fn separation(a: int, b: int) -> int {
    let d = spec_closest_distance(a, b);
    if d < 0 {
        -d
    } else {
        d
    }
}

/// An ecliptic longitude or a right ascension: [0°, 360°).
pub open spec fn is_longitude(x: int) -> bool {
    0 <= x < FULL_CIRCLE as int
}

/// Brings `x` into [0°, 360°) by adding or removing one turn at a time.
pub fn degnorm(x: i64) -> (r: i64)
    ensures
        r as int == circle_norm(x as int),
        is_longitude(r as int),
{
    let mut lon = x;
    while lon < 0
        invariant
            circle_norm(lon as int) == circle_norm(x as int),
        decreases if lon < 0 { 0 - lon } else { 0 },
    {
        proof {
            lemma_mod_add_multiples_vanish(lon as int, FULL_CIRCLE as int);
        }
        lon = lon + FULL_CIRCLE;
    }
    while lon >= FULL_CIRCLE
        invariant
            lon >= 0,
            circle_norm(lon as int) == circle_norm(x as int),
        decreases lon,
    {
        proof {
            lemma_mod_sub_multiples_vanish(lon as int, FULL_CIRCLE as int);
        }
        lon = lon - FULL_CIRCLE;
    }
    lon
}

/// Brings `angle` into (-180°, 180°].
pub fn znorm(angle: i128) -> (r: i64)
    ensures
        r as int == signed_norm(angle as int),
        -HALF_CIRCLE < r <= HALF_CIRCLE,
{
    let m = match angle.checked_rem_euclid(FULL_CIRCLE as i128) {
        Some(m) => m,
        None => 0,
    };
    if m <= HALF_CIRCLE as i128 {
        m as i64
    } else {
        (m - FULL_CIRCLE as i128) as i64
    }
}

/// The shortest signed turn from `angle1` to `angle2`, in (-180°, 180°].
pub fn closest_distance(angle1: i64, angle2: i64) -> (r: i64)
    ensures
        r as int == spec_closest_distance(angle1 as int, angle2 as int),
        -HALF_CIRCLE < r <= HALF_CIRCLE,
{
    znorm(angle2 as i128 - angle1 as i128)
}

/// The unsigned gap between two angles on the circle, in [0°, 180°].
pub fn angular_separation(angle1: i64, angle2: i64) -> (r: i64)
    ensures
        r as int == separation(angle1 as int, angle2 as int),
        0 <= r <= HALF_CIRCLE,
{
    let d = closest_distance(angle1, angle2);
    if d < 0 {
        -d
    } else {
        d
    }
}

/// Normalising a longitude twice gives what normalising once gave: the
/// result of `degnorm` is already in [0°, 360°) and is left as it is.
pub proof fn lemma_degnorm_idempotent(x: int)
    ensures
        is_longitude(circle_norm(x)),
        circle_norm(circle_norm(x)) == circle_norm(x),
{
    let r = circle_norm(x);
    assert(0 <= r < FULL_CIRCLE as int);
    vstd::arithmetic::div_mod::lemma_small_mod(r as nat, FULL_CIRCLE as nat);
}

} // verus!
