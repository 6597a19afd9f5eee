//! The synthetic zodiacal points: the Fortuna Part and the South Node.

use vstd::prelude::*;

verus! {

use vstd::arithmetic::div_mod::lemma_mod_multiples_basic;
use vstd::arithmetic::div_mod::lemma_fundamental_div_mod;
use crate::angle::{
    degnorm,
    lemma_norm360_congruent,
    norm360,
    HALF_TURN_MAS,
    TURN_MAS,
};

/// Three normalized angles differ from their raw forms by whole turns,
/// so normalizing a sum of normal forms gives the same angle as
/// normalizing the raw sum.
proof fn lemma_norm_sum3(a: int, b: int, c: int)
    ensures
        norm360(norm360(a) + norm360(b) - norm360(c)) == norm360(a + b - c),
{
    let t = TURN_MAS as int;
    lemma_fundamental_div_mod(a, t);
    lemma_fundamental_div_mod(b, t);
    lemma_fundamental_div_mod(c, t);
    let v = norm360(a) + norm360(b) - norm360(c);
    let w = a + b - c;
    assert(v - w == (-(a / t) - (b / t) + (c / t)) * t) by {
        assert(a == t * (a / t) + norm360(a));
        assert(b == t * (b / t) + norm360(b));
        assert(c == t * (c / t) + norm360(c));
    }
    lemma_mod_multiples_basic(-(a / t) - (b / t) + (c / t), t);
    lemma_norm360_congruent(v, w);
}

/// The Fortuna Part longitude from the Ascendant, Moon and Sun
/// ecliptic longitudes.  For a diurnal birth (Sun above the horizon)
/// the Moon is carried forward from the Sun; for a nocturnal birth the
/// roles of Sun and Moon swap.  The result is normalized into
/// [0, 360) degrees.
pub fn fortuna_longitude(asc: i64, moon: i64, sun: i64, is_diurnal: bool) -> (r: i64)
    ensures
        is_diurnal ==> r == norm360(asc + moon - sun),
        !is_diurnal ==> r == norm360(asc + sun - moon),
        0 <= r < TURN_MAS,
{
    let na = degnorm(asc);
    let nm = degnorm(moon);
    let ns = degnorm(sun);
    if is_diurnal {
        let r = degnorm(na + nm - ns);
        proof {
            lemma_norm_sum3(asc as int, moon as int, sun as int);
        }
        r
    } else {
        let r = degnorm(na + ns - nm);
        proof {
            lemma_norm_sum3(asc as int, sun as int, moon as int);
        }
        r
    }
}

/// The South Node longitude: the point opposite the True Node, half a
/// turn away, normalized into [0, 360) degrees.
pub fn south_node_longitude(true_node: i64) -> (r: i64)
    ensures
        r == norm360(true_node + HALF_TURN_MAS),
        0 <= r < TURN_MAS,
{
    let n = degnorm(true_node);
    let r = degnorm(n + HALF_TURN_MAS);
    proof {
        let t = TURN_MAS as int;
        lemma_fundamental_div_mod(true_node as int, t);
        assert((n + HALF_TURN_MAS) - (true_node + HALF_TURN_MAS) == (-(true_node as int / t))
            * t) by {
            assert(true_node as int == t * (true_node as int / t) + norm360(true_node as int));
        }
        lemma_mod_multiples_basic(-(true_node as int / t), t);
        lemma_norm360_congruent(n + HALF_TURN_MAS, true_node + HALF_TURN_MAS);
    }
    r
}

/// Which longitude feeds the midheaven slot of the equatorial
/// conversion inside the Fortuna computation.  The legacy behaviour
/// reuses the Ascendant cusp for the midheaven as well -- apparently a
/// defect inherited from the reference algorithm rather than an
/// intentional simplification -- so the true midheaven is only used
/// when explicitly requested.
pub fn midheaven_input(asc_cusp: i64, mc_cusp: i64, use_true_mc: bool) -> (r: i64)
    ensures
        r == if use_true_mc {
            mc_cusp
        } else {
            asc_cusp
        },
{
    if use_true_mc {
        mc_cusp
    } else {
        asc_cusp
    }
}

} // verus!
