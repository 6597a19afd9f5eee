//! Horizon and arc geometry: diurnal and nocturnal arc lengths, and the
//! above-horizon test that decides a day birth from a night birth.
//!
//! The ascensional difference itself is a trigonometric quantity
//! (arcsin of a product of tangents) computed by a collaborator; it
//! enters here as a fixed-point angle, already checked for domain.

use vstd::prelude::*;

verus! {

use crate::angle::{
    closest_distance,
    closest_distance_spec,
    HALF_TURN_MAS,
    QUARTER_TURN_MAS,
    TURN_MAS,
};

/// The fixed one-arc-second tolerance (0.0003 degrees) absorbed at the
/// day/night decision boundary.
pub const HORIZON_EPSILON_MAS: i64 = 1_080;

/// The diurnal and nocturnal arcs of a point, always a full turn
/// together.
#[derive(Debug, Clone, Copy, PartialEq, Eq, Structural)]
pub struct ArcPair {
    /// Arc spent above the horizon, in milliarcseconds.
    pub diurnal_mas: i64,
    /// Arc spent below the horizon, in milliarcseconds.
    pub nocturnal_mas: i64,
}

/// The diurnal and nocturnal arcs for a point whose ascensional
/// difference is `asc_diff` (an arcsin, so within a quarter turn
/// either way): half a turn plus twice the difference is spent above
/// the horizon, and the two arcs always sum to a full turn.
pub fn dnarcs(asc_diff: i64) -> (r: ArcPair)
    requires
        -QUARTER_TURN_MAS <= asc_diff <= QUARTER_TURN_MAS,
    ensures
        r.diurnal_mas == HALF_TURN_MAS + 2 * asc_diff,
        r.nocturnal_mas == TURN_MAS - r.diurnal_mas,
        r.diurnal_mas + r.nocturnal_mas == TURN_MAS,
        0 <= r.diurnal_mas <= TURN_MAS,
{
    let d_arc = HALF_TURN_MAS + 2 * asc_diff;
    let n_arc = TURN_MAS - d_arc;
    ArcPair { diurnal_mas: d_arc, nocturnal_mas: n_arc }
}

/// Whether a point with right ascension `ra` stands above the horizon,
/// given the midheaven's right ascension and the point's ascensional
/// difference: true exactly when the point's distance from the
/// midheaven is within its diurnal semi-arc, with the fixed
/// one-arc-second tolerance.
pub fn is_above_horizon(ra: i64, mc_ra: i64, asc_diff: i64) -> (r: bool)
    requires
        -QUARTER_TURN_MAS <= asc_diff <= QUARTER_TURN_MAS,
    ensures
        r == {
            let dist = if closest_distance_spec(mc_ra as int, ra as int) >= 0 {
                closest_distance_spec(mc_ra as int, ra as int)
            } else {
                -closest_distance_spec(mc_ra as int, ra as int)
            };
            dist <= QUARTER_TURN_MAS + asc_diff + HORIZON_EPSILON_MAS
        },
        r == {
            let dist = if closest_distance_spec(mc_ra as int, ra as int) >= 0 {
                closest_distance_spec(mc_ra as int, ra as int)
            } else {
                -closest_distance_spec(mc_ra as int, ra as int)
            };
            dist <= (HALF_TURN_MAS + 2 * asc_diff) / 2 + HORIZON_EPSILON_MAS
        },
{
    let d = closest_distance(mc_ra, ra);
    let dist = if d >= 0 {
        d
    } else {
        -d
    };
    dist <= QUARTER_TURN_MAS + asc_diff + HORIZON_EPSILON_MAS
}

} // verus!
