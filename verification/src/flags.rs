//! Calendar selection and the option flags an ephemeris query can
//! carry.  The flags combine by bitwise or into the query's flag word.

use vstd::prelude::*;

verus! {

/// Type of calandar.
#[derive(Debug, Clone, Copy, PartialEq, Eq, Structural)]
pub enum Calandar {
    Julian,
    Gregorian,
}

impl Calandar {
    /// The numeric calendar selector the ephemeris expects.
    pub open spec fn value_spec(self) -> int {
        match self {
            Calandar::Julian => 0,
            Calandar::Gregorian => 1,
        }
    }

    /// The numeric calendar selector the ephemeris expects.
    pub fn value(self) -> (r: i32)
        ensures
            r == self.value_spec(),
    {
        match self {
            Calandar::Julian => 0,
            Calandar::Gregorian => 1,
        }
    }
}

/// Optional flag of an ephemeris query.
#[derive(Debug, Clone, Copy, PartialEq, Eq, Structural)]
pub enum OptionalFlag {
    JplEph,
    SwissEph,
    Moshier,
    Heliocentric,
    TruePosition,
    J2000Equinox,
    NoNutation,
    Speed3,
    Speed,
    NoGravitanionalDeflection,
    NoAnnualAberration,
    AstronomicPosition,
    EquatorialPosition,
    XYZCartesianNotPolarCoordinate,
    Radians,
    BarycentricPosition,
    TopocentricPosition,
    SideralPosition,
    ICRS,
    Dpsideps1980,
    JplHorApprox,
}

impl OptionalFlag {
    /// The flag's bit value in the query's flag word; the astronomic
    /// position is the combination of no annual aberration with no
    /// gravitational deflection.
    pub open spec fn value_spec(self) -> int {
        match self {
            OptionalFlag::JplEph => 1,
            OptionalFlag::SwissEph => 2,
            OptionalFlag::Moshier => 4,
            OptionalFlag::Heliocentric => 8,
            OptionalFlag::TruePosition => 16,
            OptionalFlag::J2000Equinox => 32,
            OptionalFlag::NoNutation => 64,
            OptionalFlag::Speed3 => 128,
            OptionalFlag::Speed => 256,
            OptionalFlag::NoGravitanionalDeflection => 512,
            OptionalFlag::NoAnnualAberration => 1024,
            OptionalFlag::AstronomicPosition => 1536,
            OptionalFlag::EquatorialPosition => 2048,
            OptionalFlag::XYZCartesianNotPolarCoordinate => 4096,
            OptionalFlag::Radians => 8192,
            OptionalFlag::BarycentricPosition => 16384,
            OptionalFlag::TopocentricPosition => 32768,
            OptionalFlag::SideralPosition => 65536,
            OptionalFlag::ICRS => 131072,
            OptionalFlag::Dpsideps1980 => 262144,
            OptionalFlag::JplHorApprox => 524288,
        }
    }

    /// The flag's bit value in the query's flag word.
    pub fn value(self) -> (r: i32)
        ensures
            r == self.value_spec(),
    {
        match self {
            OptionalFlag::JplEph => 1,
            OptionalFlag::SwissEph => 2,
            OptionalFlag::Moshier => 4,
            OptionalFlag::Heliocentric => 8,
            OptionalFlag::TruePosition => 16,
            OptionalFlag::J2000Equinox => 32,
            OptionalFlag::NoNutation => 64,
            OptionalFlag::Speed3 => 128,
            OptionalFlag::Speed => 256,
            OptionalFlag::NoGravitanionalDeflection => 512,
            OptionalFlag::NoAnnualAberration => 1024,
            OptionalFlag::AstronomicPosition => 1536,
            OptionalFlag::EquatorialPosition => 2048,
            OptionalFlag::XYZCartesianNotPolarCoordinate => 4096,
            OptionalFlag::Radians => 8192,
            OptionalFlag::BarycentricPosition => 16384,
            OptionalFlag::TopocentricPosition => 32768,
            OptionalFlag::SideralPosition => 65536,
            OptionalFlag::ICRS => 131072,
            OptionalFlag::Dpsideps1980 => 262144,
            OptionalFlag::JplHorApprox => 524288,
        }
    }
}

} // verus!
