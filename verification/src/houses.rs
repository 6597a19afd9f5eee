//! House systems and the shape of a house-cusp query's answer.
//!
//! The cusp computation itself is an external collaborator; what it
//! returns is modelled here as fixed-point angles, with the Ascendant
//! carried as the first cusp.

use vstd::prelude::*;
use vstd::string::StringExecFns;

verus! {

/// The four cardinal points a house can mark.
#[derive(Debug, Clone, Copy, PartialEq, Eq, Structural)]
pub enum Angle {
    Nothing,
    Asc,
    Fc,
    Desc,
    Mc,
}

/// The house-cusp methods the engine accepts.
#[derive(Debug, Clone, Copy, PartialEq, Eq, Structural)]
pub enum HouseSystem {
    Campanus,
    Equal,
    Koch,
    Placidus,
    Porphyrius,
    Regiomontanus,
    WholeSign,
}

impl HouseSystem {
    /// The one-letter code the cusp collaborator selects a system by.
    pub open spec fn code_spec(self) -> char {
        match self {
            HouseSystem::Campanus => 'C',
            HouseSystem::Equal => 'E',
            HouseSystem::Koch => 'K',
            HouseSystem::Placidus => 'P',
            HouseSystem::Porphyrius => 'O',
            HouseSystem::Regiomontanus => 'R',
            HouseSystem::WholeSign => 'W',
        }
    }

    /// The one-letter code the cusp collaborator selects a system by.
    pub fn code(self) -> (r: char)
        ensures
            r == self.code_spec(),
    {
        match self {
            HouseSystem::Campanus => 'C',
            HouseSystem::Equal => 'E',
            HouseSystem::Koch => 'K',
            HouseSystem::Placidus => 'P',
            HouseSystem::Porphyrius => 'O',
            HouseSystem::Regiomontanus => 'R',
            HouseSystem::WholeSign => 'W',
        }
    }

    /// The system a one-letter code selects, if any.
    pub open spec fn from_code_spec(c: char) -> Option<HouseSystem> {
        if c == 'C' {
            Some(HouseSystem::Campanus)
        } else if c == 'E' {
            Some(HouseSystem::Equal)
        } else if c == 'K' {
            Some(HouseSystem::Koch)
        } else if c == 'P' {
            Some(HouseSystem::Placidus)
        } else if c == 'O' {
            Some(HouseSystem::Porphyrius)
        } else if c == 'R' {
            Some(HouseSystem::Regiomontanus)
        } else if c == 'W' {
            Some(HouseSystem::WholeSign)
        } else {
            None
        }
    }

    /// The system a one-letter code selects, if any.
    pub fn from_code(c: char) -> (r: Option<HouseSystem>)
        ensures
            r == Self::from_code_spec(c),
    {
        match c {
            'C' => Some(HouseSystem::Campanus),
            'E' => Some(HouseSystem::Equal),
            'K' => Some(HouseSystem::Koch),
            'P' => Some(HouseSystem::Placidus),
            'O' => Some(HouseSystem::Porphyrius),
            'R' => Some(HouseSystem::Regiomontanus),
            'W' => Some(HouseSystem::WholeSign),
            _ => None,
        }
    }

    /// The display name of the house system.
    pub open spec fn name_view(self) -> Seq<char> {
        match self {
            HouseSystem::Campanus => "Campanus"@,
            HouseSystem::Equal => "Equal"@,
            HouseSystem::Koch => "Koch"@,
            HouseSystem::Placidus => "Placidus"@,
            HouseSystem::Porphyrius => "Porphyrius"@,
            HouseSystem::Regiomontanus => "Regiomontanus"@,
            HouseSystem::WholeSign => "WholeSign"@,
        }
    }

    /// The display name of the house system.
    pub fn name(self) -> (r: String)
        ensures
            r@ == self.name_view(),
    {
        match self {
            HouseSystem::Campanus => String::from_str("Campanus"),
            HouseSystem::Equal => String::from_str("Equal"),
            HouseSystem::Koch => String::from_str("Koch"),
            HouseSystem::Placidus => String::from_str("Placidus"),
            HouseSystem::Porphyrius => String::from_str("Porphyrius"),
            HouseSystem::Regiomontanus => String::from_str("Regiomontanus"),
            HouseSystem::WholeSign => String::from_str("WholeSign"),
        }
    }
}

/// Every house system is recovered from its own code: the code table
/// and its inverse agree.
pub proof fn lemma_house_code_round_trip(h: HouseSystem)
    ensures
        HouseSystem::from_code_spec(h.code_spec()) == Some(h),
{
}

/// A house-cusp query's answer: thirteen or more cusp longitudes (the
/// Ascendant first), the ten auxiliary angles, and the collaborator's
/// status code.  All angles in milliarcseconds.
#[derive(Debug, Clone, PartialEq)]
pub struct HousesResult {
    /// Cusp longitudes; the Ascendant is carried first.
    pub cusps: Vec<i64>,
    /// The auxiliary angles (Ascendant, Midheaven and the rest).
    pub ascmc: Vec<i64>,
    /// The collaborator's status code; negative reports a failure.
    pub result: i32,
}

impl HousesResult {
    /// A well-formed answer holds at least thirteen cusps and exactly
    /// ten auxiliary angles.
    pub open spec fn wf(self) -> bool {
        &&& self.cusps.len() >= 13
        &&& self.ascmc.len() == 10
    }

    /// Assembles a well-formed answer.
    pub fn new(cusps: Vec<i64>, ascmc: Vec<i64>, result: i32) -> (r: HousesResult)
        requires
            cusps.len() >= 13,
            ascmc.len() == 10,
        ensures
            r.cusps == cusps,
            r.ascmc == ascmc,
            r.result == result,
            r.wf(),
    {
        HousesResult { cusps, ascmc, result }
    }

    /// The Ascendant longitude: the first cusp.
    pub fn ascendant(&self) -> (r: i64)
        requires
            self.wf(),
        ensures
            r == self.cusps[0],
    {
        self.cusps[0]
    }
}

} // verus!
