//! The motion classifier: stationary, direct or retrograde, decided
//! solely by the longitudinal speed.

use vstd::prelude::*;

verus! {

/// A body's apparent motion state along the ecliptic.
#[derive(Debug, Clone, Copy, PartialEq, Eq, Structural)]
pub enum ObjectPos {
    Stationary,
    Direct,
    Retrograde,
}

/// A body slower than 0.0003 degrees per day (1080 milliarcseconds) in
/// either direction counts as stationary; the bound is exclusive.
pub const STATIONARY_LIMIT_MAS: i64 = 1_080;

/// The motion state a longitudinal speed classifies to.
pub open spec fn motion_state_spec(speed_longitude: int) -> ObjectPos {
    if -STATIONARY_LIMIT_MAS < speed_longitude < STATIONARY_LIMIT_MAS {
        ObjectPos::Stationary
    } else if speed_longitude > 0 {
        ObjectPos::Direct
    } else {
        ObjectPos::Retrograde
    }
}

/// Classifies a longitudinal speed, given in milliarcseconds per day.
/// Stationary exactly when the magnitude is below the limit; otherwise
/// the sign of the speed decides between direct and retrograde.
pub fn motion_state(speed_longitude: i64) -> (r: ObjectPos)
    ensures
        r == motion_state_spec(speed_longitude as int),
        (r == ObjectPos::Stationary) <==> (-STATIONARY_LIMIT_MAS < speed_longitude
            < STATIONARY_LIMIT_MAS),
        (r == ObjectPos::Direct) <==> (speed_longitude >= STATIONARY_LIMIT_MAS),
        (r == ObjectPos::Retrograde) <==> (speed_longitude <= -STATIONARY_LIMIT_MAS),
{
    if -STATIONARY_LIMIT_MAS < speed_longitude && speed_longitude < STATIONARY_LIMIT_MAS {
        ObjectPos::Stationary
    } else if speed_longitude > 0 {
        ObjectPos::Direct
    } else {
        ObjectPos::Retrograde
    }
}

} // verus!
