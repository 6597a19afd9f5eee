//! The derived-position assembler: the final position objects built
//! from a state vector (or a synthesized longitude) by splitting the
//! degree and classifying the motion.

use vstd::prelude::*;
use vstd::string::StringExecFns;

verus! {

use crate::bodies::{Bodies, ObjectType};
use crate::houses::Angle;
use crate::motion::{motion_state, motion_state_spec, ObjectPos};
use crate::split::{is_truncated_split, print_view, split_deg, Rounding, SplitDegResult};

/// A body's derived position: identity, raw coordinates, motion state
/// and the split degree.  All angles in milliarcseconds, speeds in
/// milliarcseconds per day.
#[derive(Debug, Clone, PartialEq)]
pub struct Object {
    pub object_enum: Bodies,
    pub object_name: String,
    pub object_type: ObjectType,
    pub longitude: i64,
    pub latitude: i64,
    pub speed_longitude: i64,
    pub object_pos: ObjectPos,
    pub split: SplitDegResult,
}

impl Object {
    /// Assembles a derived position: classifies the motion from the
    /// longitudinal speed and splits the longitude, truncating at the
    /// arc-second as the assembler always does.
    pub fn new(
        object_enum: Bodies,
        object_name: &str,
        object_type: ObjectType,
        longitude: i64,
        latitude: i64,
        speed_longitude: i64,
    ) -> (r: Object)
        ensures
            r.object_enum == object_enum,
            r.object_name@ == object_name@,
            r.object_type == object_type,
            r.longitude == longitude,
            r.latitude == latitude,
            r.speed_longitude == speed_longitude,
            r.object_pos == motion_state_spec(speed_longitude as int),
            is_truncated_split(longitude as int, r.split),
            r.split.print@ == print_view(
                r.split.deg as int,
                r.split.min as int,
                r.split.sec as int,
            ),
    {
        let object_pos = motion_state(speed_longitude);
        Object {
            object_enum,
            object_name: String::from_str(object_name),
            object_type,
            longitude,
            latitude,
            speed_longitude,
            object_pos,
            split: split_deg(longitude, Rounding::Truncate),
        }
    }
}

/// A house cusp with its split degree and the cardinal point it marks.
#[derive(Debug, Clone, PartialEq)]
pub struct House {
    pub object_id: i32,
    pub longitude: i64,
    pub split: SplitDegResult,
    pub angle: Angle,
}

impl House {
    /// Assembles a house from its number, cusp longitude and cardinal
    /// point, splitting the longitude with truncation.
    pub fn new(object_id: i32, longitude: i64, angle: Angle) -> (r: House)
        ensures
            r.object_id == object_id,
            r.longitude == longitude,
            r.angle == angle,
            is_truncated_split(longitude as int, r.split),
            r.split.print@ == print_view(
                r.split.deg as int,
                r.split.min as int,
                r.split.sec as int,
            ),
    {
        House { object_id, longitude, split: split_deg(longitude, Rounding::Truncate), angle }
    }
}

} // verus!
