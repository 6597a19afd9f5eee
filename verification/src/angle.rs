//! The angle normalizer: the foundation every other component builds on.
//!
//! Angles are fixed-point integers counted in milliarcseconds, so one
//! degree is 3 600 000 units and a full turn is 1 296 000 000 units.
//! `degnorm` reduces any angle to the canonical range [0, 360) degrees,
//! `znorm` to (-180, 180] degrees, and `closest_distance` gives the
//! shortest signed angular difference between two angles.

use vstd::prelude::*;

verus! {

use vstd::arithmetic::div_mod::{
    lemma_fundamental_div_mod,
    lemma_fundamental_div_mod_converse_mod,
    lemma_mod_division_less_than_divisor,
    lemma_mod_multiples_vanish,
    lemma_small_mod,
    lemma_sub_mod_noop,
};

/// Milliarcseconds in one arc-second.
pub const MAS_PER_SECOND: i64 = 1_000;

/// Milliarcseconds in one arc-minute.
pub const MAS_PER_MINUTE: i64 = 60_000;

/// Milliarcseconds in one degree.
pub const MAS_PER_DEGREE: i64 = 3_600_000;

/// Milliarcseconds in one 30-degree zodiac segment.
pub const SIGN_SEGMENT_MAS: i64 = 108_000_000;

/// Milliarcseconds in a quarter turn (90 degrees).
pub const QUARTER_TURN_MAS: i64 = 324_000_000;

/// Milliarcseconds in half a turn (180 degrees).
pub const HALF_TURN_MAS: i64 = 648_000_000;

/// Milliarcseconds in a full turn (360 degrees).
pub const TURN_MAS: i64 = 1_296_000_000;

/// The canonical representative of an angle in [0, 360) degrees.
pub open spec fn norm360(a: int) -> int {
    a % (TURN_MAS as int)
}

/// The canonical representative of an angle in (-180, 180] degrees.
pub open spec fn norm180(a: int) -> int {
    let n = norm360(a);
    if n > HALF_TURN_MAS {
        n - TURN_MAS
    } else {
        n
    }
}

/// The shortest signed angular difference from `a` to `b`.
pub open spec fn closest_distance_spec(a: int, b: int) -> int {
    norm180(b - a)
}

/// `norm360` lands in [0, 360) degrees.
pub proof fn lemma_norm360_range(a: int)
    ensures
        0 <= norm360(a) < TURN_MAS,
{
    lemma_mod_division_less_than_divisor(a, TURN_MAS as int);
}

/// An angle and its normal form differ by a whole number of turns.
pub proof fn lemma_norm360_residue(a: int)
    ensures
        (norm360(a) - a) % (TURN_MAS as int) == 0,
{
    let t = TURN_MAS as int;
    lemma_fundamental_div_mod(a, t);
    let q = a / t;
    assert(norm360(a) - a == (-q) * t) by {
        assert(a == t * q + a % t);
    }
    vstd::arithmetic::div_mod::lemma_mod_multiples_basic(-q, t);
}

/// Two angles with the same residue have the same normal form.
pub proof fn lemma_norm360_congruent(x: int, y: int)
    requires
        (x - y) % (TURN_MAS as int) == 0,
    ensures
        norm360(x) == norm360(y),
{
    let t = TURN_MAS as int;
    lemma_fundamental_div_mod(x - y, t);
    let q = (x - y) / t;
    assert(x == t * q + y);
    lemma_mod_multiples_vanish(q, y, t);
}

/// Normalizing an already normalized angle changes nothing:
/// `norm360` is idempotent.
pub proof fn lemma_norm360_idempotent(a: int)
    ensures
        norm360(norm360(a)) == norm360(a),
{
    lemma_norm360_range(a);
    lemma_small_mod(norm360(a) as nat, TURN_MAS as nat);
}

/// `norm180` lands in (-180, 180] degrees and keeps the residue.
pub proof fn lemma_norm180_residue(a: int)
    ensures
        -HALF_TURN_MAS < norm180(a) <= HALF_TURN_MAS,
        (norm180(a) - a) % (TURN_MAS as int) == 0,
{
    let t = TURN_MAS as int;
    lemma_norm360_range(a);
    lemma_norm360_residue(a);
    if norm360(a) > HALF_TURN_MAS {
        lemma_fundamental_div_mod(norm360(a) - a, t);
        let q = (norm360(a) - a) / t;
        assert(norm180(a) - a == (q - 1) * t) by {
            assert(norm360(a) - a == t * q);
        }
        vstd::arithmetic::div_mod::lemma_mod_multiples_basic(q - 1, t);
    }
}

/// Two values in (-180, 180] degrees with the same residue are equal.
pub proof fn lemma_norm180_unique(x: int, y: int)
    requires
        -HALF_TURN_MAS < x <= HALF_TURN_MAS,
        -HALF_TURN_MAS < y <= HALF_TURN_MAS,
        (x - y) % (TURN_MAS as int) == 0,
    ensures
        x == y,
{
    let t = TURN_MAS as int;
    if x != y {
        lemma_fundamental_div_mod(x - y, t);
        let q = (x - y) / t;
        assert(x - y == t * q);
        assert(-t < t * q < t);
        assert(q == 0);
    }
}

/// Reduces an angle to [0, 360) degrees.
pub fn degnorm(a: i64) -> (r: i64)
    ensures
        r == norm360(a as int),
        0 <= r < TURN_MAS,
{
    proof {
        lemma_norm360_range(a as int);
    }
    a.checked_rem_euclid(TURN_MAS).unwrap()
}

/// Reduces an angle to (-180, 180] degrees.
pub fn znorm(a: i64) -> (r: i64)
    ensures
        r == norm180(a as int),
        -HALF_TURN_MAS < r <= HALF_TURN_MAS,
{
    proof {
        lemma_norm360_range(a as int);
    }
    let n = degnorm(a);
    if n > HALF_TURN_MAS {
        n - TURN_MAS
    } else {
        n
    }
}

/// The shortest signed angular difference from `angle1` to `angle2`,
/// in (-180, 180] degrees.
pub fn closest_distance(angle1: i64, angle2: i64) -> (r: i64)
    ensures
        r == closest_distance_spec(angle1 as int, angle2 as int),
        -HALF_TURN_MAS < r <= HALF_TURN_MAS,
{
    let n1 = degnorm(angle1);
    let n2 = degnorm(angle2);
    let r = znorm(n2 - n1);
    proof {
        let t = TURN_MAS as int;
        let d = angle2 - angle1;
        lemma_sub_mod_noop(angle2 as int, angle1 as int, t);
        lemma_norm360_congruent(n2 - n1, d);
        lemma_norm180_residue(n2 - n1);
        lemma_norm180_residue(d);
        lemma_norm180_unique(norm180(n2 - n1), norm180(d));
    }
    r
}

/// Swapping the two endpoints negates the closest distance, except
/// exactly at the 180-degree boundary, where both directions yield
/// +180 degrees.  This pins down the sign convention at the seam.
pub proof fn lemma_closest_distance_antisymmetric(a: int, b: int)
    ensures
        closest_distance_spec(a, b) == HALF_TURN_MAS <==> closest_distance_spec(b, a)
            == HALF_TURN_MAS,
        closest_distance_spec(a, b) != HALF_TURN_MAS ==> closest_distance_spec(b, a)
            == -closest_distance_spec(a, b),
{
    let t = TURN_MAS as int;
    let x = closest_distance_spec(a, b);
    let y = closest_distance_spec(b, a);
    lemma_norm180_residue(b - a);
    lemma_norm180_residue(a - b);
    assert(((x + y) - 0) % t == 0) by {
        let dx = x - (b - a);
        let dy = y - (a - b);
        lemma_fundamental_div_mod(dx, t);
        lemma_fundamental_div_mod(dy, t);
        let qx = dx / t;
        let qy = dy / t;
        assert(x + y == (qx + qy) * t) by {
            assert(dx == t * qx + dx % t);
            assert(dy == t * qy + dy % t);
        }
        vstd::arithmetic::div_mod::lemma_mod_multiples_basic(qx + qy, t);
    }
    lemma_fundamental_div_mod(x + y, t);
    let q = (x + y) / t;
    assert(x + y == t * q);
    assert(-t < t * q <= 2 * HALF_TURN_MAS);
    assert(q == 0 || q == 1);
}

} // verus!
