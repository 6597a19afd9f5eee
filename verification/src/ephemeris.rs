//! The shape of an ephemeris query's answer, the engine's typed
//! errors, and the verified post-processing applied to answers: the
//! upstream failure gate and the South Node derivation.

use vstd::prelude::*;
use vstd::string::StringExecFns;

verus! {

use crate::angle::{norm360, HALF_TURN_MAS, TURN_MAS};
use crate::fortuna::south_node_longitude;

/// The engine's failure kinds.
#[derive(Debug, Clone, PartialEq)]
pub enum CalcError {
    /// A non-finite number reached a pure transform at the boundary.
    InvalidInput,
    /// The ascensional-difference argument left its domain: a
    /// near-polar latitude combined with a high declination.
    ArcUndefined,
    /// The ephemeris or house collaborator reported a failure, carried
    /// verbatim.
    UpstreamFailure { status: i32, message: String },
}

/// An ephemeris query's answer: the six-component state vector in
/// fixed-point form, plus the collaborator's status and error text.
/// Angles are in milliarcseconds and angular speeds in milliarcseconds
/// per day; the distance and its speed are in billionths of an
/// astronomical unit.
#[derive(Debug, Clone, PartialEq)]
pub struct CalcUtResult {
    pub longitude: i64,
    pub latitude: i64,
    pub distance_au: i64,
    pub speed_longitude: i64,
    pub speed_latitude: i64,
    pub speed_distance_au: i64,
    pub status: i32,
    pub serr: String,
}

/// Gates a collaborator's answer: a non-zero status or a non-empty
/// error text is a failure to propagate, never to swallow; both are
/// carried to the caller verbatim.
pub fn upstream_check(status: i32, serr: &str) -> (r: Result<(), CalcError>)
    ensures
        r is Ok <==> (status == 0 && serr@.len() == 0),
        !(status == 0 && serr@.len() == 0) ==> (r matches Err(CalcError::UpstreamFailure {
            status: st,
            message: m,
        }) && st == status && m@ == serr@),
{
    if status == 0 && serr.is_empty() {
        Ok(())
    } else {
        Err(CalcError::UpstreamFailure { status, message: String::from_str(serr) })
    }
}

/// Derives the South Node answer from the True Node's: the longitude
/// moves half a turn and is normalized, while speed and motion are
/// inherited unchanged from the True Node -- a documented
/// approximation, kept for compatibility and isolated here so a
/// corrected derivation could replace it.
pub fn south_node_from_true_node(true_node: &CalcUtResult) -> (r: CalcUtResult)
    ensures
        r.longitude == norm360(true_node.longitude + HALF_TURN_MAS),
        0 <= r.longitude < TURN_MAS,
        r.latitude == true_node.latitude,
        r.distance_au == true_node.distance_au,
        r.speed_longitude == true_node.speed_longitude,
        r.speed_latitude == true_node.speed_latitude,
        r.speed_distance_au == true_node.speed_distance_au,
        r.status == true_node.status,
        r.serr@ == true_node.serr@,
{
    CalcUtResult {
        longitude: south_node_longitude(true_node.longitude),
        latitude: true_node.latitude,
        distance_au: true_node.distance_au,
        speed_longitude: true_node.speed_longitude,
        speed_latitude: true_node.speed_latitude,
        speed_distance_au: true_node.speed_distance_au,
        status: true_node.status,
        serr: true_node.serr.clone(),
    }
}

} // verus!
