//! Astrological derived-position engine.
//!
//! Turns already-computed ephemeris state vectors into astrologically
//! meaningful structures: zodiac sign / degree / minute / second
//! decomposition, retrograde or direct motion state, equatorial branch
//! resolution, diurnal and nocturnal arcs, the above-horizon test, and
//! the Fortuna Part and South Node longitudes.
//!
//! All angles in this crate are fixed-point integers in milliarcseconds
//! (one degree is 3 600 000 milliarcseconds), so every rule and boundary
//! of the engine is stated and proved exactly.  The trigonometric steps
//! of the coordinate conversion and the ephemeris queries themselves are
//! external collaborators and stay outside the verified core.

use vstd::prelude::*;

pub mod angle;
pub mod aspects;
pub mod bodies;
pub mod ephemeris;
pub mod equatorial;
pub mod flags;
pub mod fortuna;
pub mod horizon;
pub mod houses;
pub mod motion;
pub mod position;
pub mod signs;
pub mod split;

verus! {

/// Language available for the textual tables.
#[derive(Debug, Clone, Copy, PartialEq, Eq, Structural)]
pub enum Language {
    English,
    French,
}

} // verus!
