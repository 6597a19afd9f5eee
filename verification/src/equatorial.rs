//! Equatorial conversion branch logic.
//!
//! The conversion from ecliptic (longitude, latitude) to equatorial
//! (right ascension, declination) under the fixed 23.44-degree
//! obliquity needs trigonometry for the declination and the equatorial
//! distance; those values are computed by a collaborator and enter here
//! as fixed-point angles and scaled sines.  What this module settles --
//! and proves -- is the two-branch ambiguity of the inverse-cosine
//! formula: the initial heuristic branch cut at 100 degrees of
//! longitude (an approximation inherited from the reference algorithm),
//! and the corrective flip applied within five degrees of the 0/180
//! degree nodes, exactly where the heuristic is least reliable.

use vstd::prelude::*;

verus! {

use crate::angle::{
    closest_distance,
    closest_distance_spec,
    degnorm,
    norm360,
    HALF_TURN_MAS,
    TURN_MAS,
};

/// The longitude below which the equatorial distance is taken as the
/// right ascension directly (100 degrees).
pub const RA_BRANCH_LIMIT_MAS: i64 = 360_000_000;

/// Radius around the 0 and 180 degree nodes within which the branch is
/// re-checked (5 degrees).
pub const NODE_RADIUS_MAS: i64 = 18_000_000;

/// One unit of a scaled sine: sines and their products are carried as
/// integers in units of one ten-millionth.
pub const SIN_SCALE: i64 = 10_000_000;

/// Mismatch threshold between the two sine expressions that forces the
/// branch flip (0.0003 in scaled units).
pub const SIN_MISMATCH: i64 = 3_000;

/// Whether a longitude lies within the node radius of either the
/// 0-degree or the 180-degree node.
pub open spec fn near_node_spec(lon: int) -> bool {
    let d0 = closest_distance_spec(lon, 0);
    let d180 = closest_distance_spec(lon, HALF_TURN_MAS as int);
    ||| -NODE_RADIUS_MAS < d0 < NODE_RADIUS_MAS
    ||| -NODE_RADIUS_MAS < d180 < NODE_RADIUS_MAS
}

/// Whether a longitude lies within five degrees of the 0 or 180 degree
/// node, where the initial branch cut is unreliable.
pub fn near_node(lon: i64) -> (r: bool)
    ensures
        r == near_node_spec(lon as int),
{
    let d0 = closest_distance(lon, 0);
    let d180 = closest_distance(lon, HALF_TURN_MAS);
    let a0 = if d0 >= 0 {
        d0
    } else {
        -d0
    };
    let a180 = if d180 >= 0 {
        d180
    } else {
        -d180
    };
    a0 < NODE_RADIUS_MAS || a180 < NODE_RADIUS_MAS
}

/// The initial right-ascension branch: the equatorial distance itself
/// for longitudes below 100 degrees, its reflection otherwise,
/// normalized into [0, 360) degrees.  The 100-degree cut is a
/// heuristic, corrected near the nodes by `resolve_right_ascension`.
pub fn initial_right_ascension(lon: i64, eq_dist: i64) -> (r: i64)
    requires
        0 <= eq_dist <= HALF_TURN_MAS,
    ensures
        r == norm360(
            if lon < RA_BRANCH_LIMIT_MAS {
                eq_dist as int
            } else {
                TURN_MAS - eq_dist
            },
        ),
        0 <= r < TURN_MAS,
{
    if lon < RA_BRANCH_LIMIT_MAS {
        degnorm(eq_dist)
    } else {
        degnorm(TURN_MAS - eq_dist)
    }
}

/// Resolves the branch ambiguity near the nodes: within five degrees of
/// a node, if the sine of the candidate right ascension (times the
/// cosine of the declination) disagrees with the equivalent expression
/// computed from the ecliptic coordinates by more than the mismatch
/// threshold, the branch is flipped to the reflected angle.  Both sine
/// expressions arrive as scaled integers.
pub fn resolve_right_ascension(lon: i64, ra: i64, sin_ra_scaled: i64, sin_ecl_scaled: i64) -> (r:
    i64)
    requires
        0 <= ra < TURN_MAS,
        -SIN_SCALE <= sin_ra_scaled <= SIN_SCALE,
        -SIN_SCALE <= sin_ecl_scaled <= SIN_SCALE,
    ensures
        r == if near_node_spec(lon as int) && (sin_ra_scaled - sin_ecl_scaled > SIN_MISMATCH
            || sin_ecl_scaled - sin_ra_scaled > SIN_MISMATCH) {
            norm360(TURN_MAS - ra)
        } else {
            ra as int
        },
        0 <= r < TURN_MAS,
{
    if near_node(lon) {
        let diff = sin_ra_scaled - sin_ecl_scaled;
        let mag = if diff >= 0 {
            diff
        } else {
            -diff
        };
        if mag > SIN_MISMATCH {
            degnorm(TURN_MAS - ra)
        } else {
            ra
        }
    } else {
        ra
    }
}

} // verus!
