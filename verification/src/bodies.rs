//! The celestial bodies the engine knows, with their ephemeris
//! identifiers, classification, display colors and translated names.

use vstd::prelude::*;
use vstd::string::StringExecFns;

verus! {

use crate::Language;

pub const COLOR_BODIE_SUN: i32 = 0xFFA300;

pub const COLOR_BODIE_MOON: i32 = 0xB5B510;

pub const COLOR_BODIE_MERCURY: i32 = 0x6900FF;

pub const COLOR_BODIE_VENUS: i32 = 0xFF009E;

pub const COLOR_BODIE_MARS: i32 = 0xFF1212;

pub const COLOR_BODIE_JUPITER: i32 = 0x12A5FF;

pub const COLOR_BODIE_SATURN: i32 = 0xCC0000;

pub const COLOR_BODIE_URANUS: i32 = 0xA89402;

pub const COLOR_BODIE_NEPTUNE: i32 = 0x00B526;

pub const COLOR_BODIE_PLUTO: i32 = 0xBF3A3A;

pub const COLOR_BODIE_OTHER: i32 = 0x6B6B6B;

/// Bodies.
#[derive(Debug, Clone, Copy, PartialEq, Eq, Structural)]
pub enum Bodies {
    EclNut,
    Sun,
    Moon,
    Mercury,
    Venus,
    Mars,
    Jupiter,
    Saturn,
    Uranus,
    Neptune,
    Pluto,
    MeanNode,
    TrueNode,
    MeanApog,
    OscuApog,
    Earth,
    Chiron,
    Pholus,
    Ceres,
    Pallas,
    Juno,
    Vesta,
    IntpApog,
    IntpPerg,
    NPlanets,
    SouthNode,
    FortunaPart,
    Cupido,
    Hades,
    Zeus,
    Kronos,
    Apollon,
    Admetos,
    Vulkanus,
    Poseidon,
    Isis,
    Nibiru,
    Harrington,
    NeptuneLeverrier,
    NeptuneAdams,
    PlutoLowell,
    PlutoPickering,
    AsteroidAstera,
    AsteroidHebe,
    AsteroidIris,
    AsteroidFlora,
    AsteroidMetis,
    AsteroidHygiea,
    AsteroidUrania,
    AsteroidIsis,
    AsteroidHilda,
    AsteroidPhilosophia,
    AsteroidSophia,
    AsteroidAletheia,
    AsteroidSapientia,
    AsteroidThule,
    AsteroidUrsula,
    AsteroidEros,
    AsteroidCupido,
    AsteroidHidalgo,
    AsteroidLilith,
    AsteroidAmor,
    AsteroidKama,
    AsteroidAphrodite,
    AsteroidApollo,
    AsteroidDamocles,
    AsteroidCruithne,
    AsteroidPoseidon,
    AsteroidVulcano,
    AsteroidZeus,
    AsteroidNessus,
}

/// Object type.
#[derive(Debug, Clone, Copy, PartialEq, Eq, Structural)]
pub enum ObjectType {
    Unknown,
    PlanetOrStar,
    Earth,
    Fiction,
    Asteroid,
}

impl Bodies {
    /// The numeric identifier a body carries in ephemeris queries.
    pub open spec fn id_spec(self) -> int {
        match self {
            Bodies::EclNut => -1,
            Bodies::Sun => 0,
            Bodies::Moon => 1,
            Bodies::Mercury => 2,
            Bodies::Venus => 3,
            Bodies::Mars => 4,
            Bodies::Jupiter => 5,
            Bodies::Saturn => 6,
            Bodies::Uranus => 7,
            Bodies::Neptune => 8,
            Bodies::Pluto => 9,
            Bodies::MeanNode => 10,
            Bodies::TrueNode => 11,
            Bodies::MeanApog => 12,
            Bodies::OscuApog => 13,
            Bodies::Earth => 14,
            Bodies::Chiron => 15,
            Bodies::Pholus => 16,
            Bodies::Ceres => 17,
            Bodies::Pallas => 18,
            Bodies::Juno => 19,
            Bodies::Vesta => 20,
            Bodies::IntpApog => 21,
            Bodies::IntpPerg => 22,
            Bodies::NPlanets => 23,
            Bodies::SouthNode => 24,
            Bodies::FortunaPart => 25,
            Bodies::Cupido => 40,
            Bodies::Hades => 41,
            Bodies::Zeus => 42,
            Bodies::Kronos => 43,
            Bodies::Apollon => 44,
            Bodies::Admetos => 45,
            Bodies::Vulkanus => 46,
            Bodies::Poseidon => 47,
            Bodies::Isis => 48,
            Bodies::Nibiru => 49,
            Bodies::Harrington => 50,
            Bodies::NeptuneLeverrier => 51,
            Bodies::NeptuneAdams => 52,
            Bodies::PlutoLowell => 53,
            Bodies::PlutoPickering => 54,
            Bodies::AsteroidAstera => 10005,
            Bodies::AsteroidHebe => 10006,
            Bodies::AsteroidIris => 10007,
            Bodies::AsteroidFlora => 10008,
            Bodies::AsteroidMetis => 10009,
            Bodies::AsteroidHygiea => 10010,
            Bodies::AsteroidUrania => 10030,
            Bodies::AsteroidIsis => 10042,
            Bodies::AsteroidHilda => 10153,
            Bodies::AsteroidPhilosophia => 10227,
            Bodies::AsteroidSophia => 10251,
            Bodies::AsteroidAletheia => 10259,
            Bodies::AsteroidSapientia => 10275,
            Bodies::AsteroidThule => 10279,
            Bodies::AsteroidUrsula => 10375,
            Bodies::AsteroidEros => 10433,
            Bodies::AsteroidCupido => 10763,
            Bodies::AsteroidHidalgo => 10944,
            Bodies::AsteroidLilith => 11181,
            Bodies::AsteroidAmor => 11221,
            Bodies::AsteroidKama => 11387,
            Bodies::AsteroidAphrodite => 11388,
            Bodies::AsteroidApollo => 11862,
            Bodies::AsteroidDamocles => 13553,
            Bodies::AsteroidCruithne => 13753,
            Bodies::AsteroidPoseidon => 14341,
            Bodies::AsteroidVulcano => 14464,
            Bodies::AsteroidZeus => 15731,
            Bodies::AsteroidNessus => 17066,
        }
    }

    /// The numeric identifier a body carries in ephemeris queries.
    pub fn id(self) -> (r: i32)
        ensures
            r == self.id_spec(),
    {
        match self {
            Bodies::EclNut => -1,
            Bodies::Sun => 0,
            Bodies::Moon => 1,
            Bodies::Mercury => 2,
            Bodies::Venus => 3,
            Bodies::Mars => 4,
            Bodies::Jupiter => 5,
            Bodies::Saturn => 6,
            Bodies::Uranus => 7,
            Bodies::Neptune => 8,
            Bodies::Pluto => 9,
            Bodies::MeanNode => 10,
            Bodies::TrueNode => 11,
            Bodies::MeanApog => 12,
            Bodies::OscuApog => 13,
            Bodies::Earth => 14,
            Bodies::Chiron => 15,
            Bodies::Pholus => 16,
            Bodies::Ceres => 17,
            Bodies::Pallas => 18,
            Bodies::Juno => 19,
            Bodies::Vesta => 20,
            Bodies::IntpApog => 21,
            Bodies::IntpPerg => 22,
            Bodies::NPlanets => 23,
            Bodies::SouthNode => 24,
            Bodies::FortunaPart => 25,
            Bodies::Cupido => 40,
            Bodies::Hades => 41,
            Bodies::Zeus => 42,
            Bodies::Kronos => 43,
            Bodies::Apollon => 44,
            Bodies::Admetos => 45,
            Bodies::Vulkanus => 46,
            Bodies::Poseidon => 47,
            Bodies::Isis => 48,
            Bodies::Nibiru => 49,
            Bodies::Harrington => 50,
            Bodies::NeptuneLeverrier => 51,
            Bodies::NeptuneAdams => 52,
            Bodies::PlutoLowell => 53,
            Bodies::PlutoPickering => 54,
            Bodies::AsteroidAstera => 10005,
            Bodies::AsteroidHebe => 10006,
            Bodies::AsteroidIris => 10007,
            Bodies::AsteroidFlora => 10008,
            Bodies::AsteroidMetis => 10009,
            Bodies::AsteroidHygiea => 10010,
            Bodies::AsteroidUrania => 10030,
            Bodies::AsteroidIsis => 10042,
            Bodies::AsteroidHilda => 10153,
            Bodies::AsteroidPhilosophia => 10227,
            Bodies::AsteroidSophia => 10251,
            Bodies::AsteroidAletheia => 10259,
            Bodies::AsteroidSapientia => 10275,
            Bodies::AsteroidThule => 10279,
            Bodies::AsteroidUrsula => 10375,
            Bodies::AsteroidEros => 10433,
            Bodies::AsteroidCupido => 10763,
            Bodies::AsteroidHidalgo => 10944,
            Bodies::AsteroidLilith => 11181,
            Bodies::AsteroidAmor => 11221,
            Bodies::AsteroidKama => 11387,
            Bodies::AsteroidAphrodite => 11388,
            Bodies::AsteroidApollo => 11862,
            Bodies::AsteroidDamocles => 13553,
            Bodies::AsteroidCruithne => 13753,
            Bodies::AsteroidPoseidon => 14341,
            Bodies::AsteroidVulcano => 14464,
            Bodies::AsteroidZeus => 15731,
            Bodies::AsteroidNessus => 17066,
        }
    }

    /// The classification follows the identifier ranges: negative is
    /// unknown, 0 through 13 are planets or stars, 14 is the Earth, up
    /// to 54 are fictitious points, and the asteroid range lies above.
    pub open spec fn object_type_spec(self) -> ObjectType {
        let id = self.id_spec();
        if id < 0 {
            ObjectType::Unknown
        } else if id <= 13 {
            ObjectType::PlanetOrStar
        } else if id == 14 {
            ObjectType::Earth
        } else if id <= 54 {
            ObjectType::Fiction
        } else {
            ObjectType::Asteroid
        }
    }

    /// Object type of Bodies.
    pub fn object_type(self) -> (r: ObjectType)
        ensures
            r == self.object_type_spec(),
    {
        match self {
            Bodies::EclNut => ObjectType::Unknown,
            Bodies::Sun => ObjectType::PlanetOrStar,
            Bodies::Moon => ObjectType::PlanetOrStar,
            Bodies::Mercury => ObjectType::PlanetOrStar,
            Bodies::Venus => ObjectType::PlanetOrStar,
            Bodies::Mars => ObjectType::PlanetOrStar,
            Bodies::Jupiter => ObjectType::PlanetOrStar,
            Bodies::Saturn => ObjectType::PlanetOrStar,
            Bodies::Uranus => ObjectType::PlanetOrStar,
            Bodies::Neptune => ObjectType::PlanetOrStar,
            Bodies::Pluto => ObjectType::PlanetOrStar,
            Bodies::MeanNode => ObjectType::PlanetOrStar,
            Bodies::TrueNode => ObjectType::PlanetOrStar,
            Bodies::MeanApog => ObjectType::PlanetOrStar,
            Bodies::OscuApog => ObjectType::PlanetOrStar,
            Bodies::Earth => ObjectType::Earth,
            Bodies::Chiron => ObjectType::Fiction,
            Bodies::Pholus => ObjectType::Fiction,
            Bodies::Ceres => ObjectType::Fiction,
            Bodies::Pallas => ObjectType::Fiction,
            Bodies::Juno => ObjectType::Fiction,
            Bodies::Vesta => ObjectType::Fiction,
            Bodies::IntpApog => ObjectType::Fiction,
            Bodies::IntpPerg => ObjectType::Fiction,
            Bodies::NPlanets => ObjectType::Fiction,
            Bodies::SouthNode => ObjectType::Fiction,
            Bodies::FortunaPart => ObjectType::Fiction,
            Bodies::Cupido => ObjectType::Fiction,
            Bodies::Hades => ObjectType::Fiction,
            Bodies::Zeus => ObjectType::Fiction,
            Bodies::Kronos => ObjectType::Fiction,
            Bodies::Apollon => ObjectType::Fiction,
            Bodies::Admetos => ObjectType::Fiction,
            Bodies::Vulkanus => ObjectType::Fiction,
            Bodies::Poseidon => ObjectType::Fiction,
            Bodies::Isis => ObjectType::Fiction,
            Bodies::Nibiru => ObjectType::Fiction,
            Bodies::Harrington => ObjectType::Fiction,
            Bodies::NeptuneLeverrier => ObjectType::Fiction,
            Bodies::NeptuneAdams => ObjectType::Fiction,
            Bodies::PlutoLowell => ObjectType::Fiction,
            Bodies::PlutoPickering => ObjectType::Fiction,
            Bodies::AsteroidAstera => ObjectType::Asteroid,
            Bodies::AsteroidHebe => ObjectType::Asteroid,
            Bodies::AsteroidIris => ObjectType::Asteroid,
            Bodies::AsteroidFlora => ObjectType::Asteroid,
            Bodies::AsteroidMetis => ObjectType::Asteroid,
            Bodies::AsteroidHygiea => ObjectType::Asteroid,
            Bodies::AsteroidUrania => ObjectType::Asteroid,
            Bodies::AsteroidIsis => ObjectType::Asteroid,
            Bodies::AsteroidHilda => ObjectType::Asteroid,
            Bodies::AsteroidPhilosophia => ObjectType::Asteroid,
            Bodies::AsteroidSophia => ObjectType::Asteroid,
            Bodies::AsteroidAletheia => ObjectType::Asteroid,
            Bodies::AsteroidSapientia => ObjectType::Asteroid,
            Bodies::AsteroidThule => ObjectType::Asteroid,
            Bodies::AsteroidUrsula => ObjectType::Asteroid,
            Bodies::AsteroidEros => ObjectType::Asteroid,
            Bodies::AsteroidCupido => ObjectType::Asteroid,
            Bodies::AsteroidHidalgo => ObjectType::Asteroid,
            Bodies::AsteroidLilith => ObjectType::Asteroid,
            Bodies::AsteroidAmor => ObjectType::Asteroid,
            Bodies::AsteroidKama => ObjectType::Asteroid,
            Bodies::AsteroidAphrodite => ObjectType::Asteroid,
            Bodies::AsteroidApollo => ObjectType::Asteroid,
            Bodies::AsteroidDamocles => ObjectType::Asteroid,
            Bodies::AsteroidCruithne => ObjectType::Asteroid,
            Bodies::AsteroidPoseidon => ObjectType::Asteroid,
            Bodies::AsteroidVulcano => ObjectType::Asteroid,
            Bodies::AsteroidZeus => ObjectType::Asteroid,
            Bodies::AsteroidNessus => ObjectType::Asteroid,
        }
    }

    /// Sun through Pluto carry their own display colors; every other
    /// body shares the common one.
    pub open spec fn object_color_spec(self) -> int {
        let id = self.id_spec();
        if id == 0 {
            COLOR_BODIE_SUN as int
        } else if id == 1 {
            COLOR_BODIE_MOON as int
        } else if id == 2 {
            COLOR_BODIE_MERCURY as int
        } else if id == 3 {
            COLOR_BODIE_VENUS as int
        } else if id == 4 {
            COLOR_BODIE_MARS as int
        } else if id == 5 {
            COLOR_BODIE_JUPITER as int
        } else if id == 6 {
            COLOR_BODIE_SATURN as int
        } else if id == 7 {
            COLOR_BODIE_URANUS as int
        } else if id == 8 {
            COLOR_BODIE_NEPTUNE as int
        } else if id == 9 {
            COLOR_BODIE_PLUTO as int
        } else {
            COLOR_BODIE_OTHER as int
        }
    }

    /// Object color.
    pub fn object_color(self) -> (r: i32)
        ensures
            r == self.object_color_spec(),
    {
        match self {
            Bodies::EclNut => COLOR_BODIE_OTHER,
            Bodies::Sun => COLOR_BODIE_SUN,
            Bodies::Moon => COLOR_BODIE_MOON,
            Bodies::Mercury => COLOR_BODIE_MERCURY,
            Bodies::Venus => COLOR_BODIE_VENUS,
            Bodies::Mars => COLOR_BODIE_MARS,
            Bodies::Jupiter => COLOR_BODIE_JUPITER,
            Bodies::Saturn => COLOR_BODIE_SATURN,
            Bodies::Uranus => COLOR_BODIE_URANUS,
            Bodies::Neptune => COLOR_BODIE_NEPTUNE,
            Bodies::Pluto => COLOR_BODIE_PLUTO,
            Bodies::MeanNode => COLOR_BODIE_OTHER,
            Bodies::TrueNode => COLOR_BODIE_OTHER,
            Bodies::MeanApog => COLOR_BODIE_OTHER,
            Bodies::OscuApog => COLOR_BODIE_OTHER,
            Bodies::Earth => COLOR_BODIE_OTHER,
            Bodies::Chiron => COLOR_BODIE_OTHER,
            Bodies::Pholus => COLOR_BODIE_OTHER,
            Bodies::Ceres => COLOR_BODIE_OTHER,
            Bodies::Pallas => COLOR_BODIE_OTHER,
            Bodies::Juno => COLOR_BODIE_OTHER,
            Bodies::Vesta => COLOR_BODIE_OTHER,
            Bodies::IntpApog => COLOR_BODIE_OTHER,
            Bodies::IntpPerg => COLOR_BODIE_OTHER,
            Bodies::NPlanets => COLOR_BODIE_OTHER,
            Bodies::SouthNode => COLOR_BODIE_OTHER,
            Bodies::FortunaPart => COLOR_BODIE_OTHER,
            Bodies::Cupido => COLOR_BODIE_OTHER,
            Bodies::Hades => COLOR_BODIE_OTHER,
            Bodies::Zeus => COLOR_BODIE_OTHER,
            Bodies::Kronos => COLOR_BODIE_OTHER,
            Bodies::Apollon => COLOR_BODIE_OTHER,
            Bodies::Admetos => COLOR_BODIE_OTHER,
            Bodies::Vulkanus => COLOR_BODIE_OTHER,
            Bodies::Poseidon => COLOR_BODIE_OTHER,
            Bodies::Isis => COLOR_BODIE_OTHER,
            Bodies::Nibiru => COLOR_BODIE_OTHER,
            Bodies::Harrington => COLOR_BODIE_OTHER,
            Bodies::NeptuneLeverrier => COLOR_BODIE_OTHER,
            Bodies::NeptuneAdams => COLOR_BODIE_OTHER,
            Bodies::PlutoLowell => COLOR_BODIE_OTHER,
            Bodies::PlutoPickering => COLOR_BODIE_OTHER,
            Bodies::AsteroidAstera => COLOR_BODIE_OTHER,
            Bodies::AsteroidHebe => COLOR_BODIE_OTHER,
            Bodies::AsteroidIris => COLOR_BODIE_OTHER,
            Bodies::AsteroidFlora => COLOR_BODIE_OTHER,
            Bodies::AsteroidMetis => COLOR_BODIE_OTHER,
            Bodies::AsteroidHygiea => COLOR_BODIE_OTHER,
            Bodies::AsteroidUrania => COLOR_BODIE_OTHER,
            Bodies::AsteroidIsis => COLOR_BODIE_OTHER,
            Bodies::AsteroidHilda => COLOR_BODIE_OTHER,
            Bodies::AsteroidPhilosophia => COLOR_BODIE_OTHER,
            Bodies::AsteroidSophia => COLOR_BODIE_OTHER,
            Bodies::AsteroidAletheia => COLOR_BODIE_OTHER,
            Bodies::AsteroidSapientia => COLOR_BODIE_OTHER,
            Bodies::AsteroidThule => COLOR_BODIE_OTHER,
            Bodies::AsteroidUrsula => COLOR_BODIE_OTHER,
            Bodies::AsteroidEros => COLOR_BODIE_OTHER,
            Bodies::AsteroidCupido => COLOR_BODIE_OTHER,
            Bodies::AsteroidHidalgo => COLOR_BODIE_OTHER,
            Bodies::AsteroidLilith => COLOR_BODIE_OTHER,
            Bodies::AsteroidAmor => COLOR_BODIE_OTHER,
            Bodies::AsteroidKama => COLOR_BODIE_OTHER,
            Bodies::AsteroidAphrodite => COLOR_BODIE_OTHER,
            Bodies::AsteroidApollo => COLOR_BODIE_OTHER,
            Bodies::AsteroidDamocles => COLOR_BODIE_OTHER,
            Bodies::AsteroidCruithne => COLOR_BODIE_OTHER,
            Bodies::AsteroidPoseidon => COLOR_BODIE_OTHER,
            Bodies::AsteroidVulcano => COLOR_BODIE_OTHER,
            Bodies::AsteroidZeus => COLOR_BODIE_OTHER,
            Bodies::AsteroidNessus => COLOR_BODIE_OTHER,
        }
    }

    /// The bare body name, used wherever no translation overrides it.
    pub open spec fn name_view(self) -> Seq<char> {
        match self {
            Bodies::EclNut => "EclNut"@,
            Bodies::Sun => "Sun"@,
            Bodies::Moon => "Moon"@,
            Bodies::Mercury => "Mercury"@,
            Bodies::Venus => "Venus"@,
            Bodies::Mars => "Mars"@,
            Bodies::Jupiter => "Jupiter"@,
            Bodies::Saturn => "Saturn"@,
            Bodies::Uranus => "Uranus"@,
            Bodies::Neptune => "Neptune"@,
            Bodies::Pluto => "Pluto"@,
            Bodies::MeanNode => "MeanNode"@,
            Bodies::TrueNode => "TrueNode"@,
            Bodies::MeanApog => "MeanApog"@,
            Bodies::OscuApog => "OscuApog"@,
            Bodies::Earth => "Earth"@,
            Bodies::Chiron => "Chiron"@,
            Bodies::Pholus => "Pholus"@,
            Bodies::Ceres => "Ceres"@,
            Bodies::Pallas => "Pallas"@,
            Bodies::Juno => "Juno"@,
            Bodies::Vesta => "Vesta"@,
            Bodies::IntpApog => "IntpApog"@,
            Bodies::IntpPerg => "IntpPerg"@,
            Bodies::NPlanets => "NPlanets"@,
            Bodies::SouthNode => "SouthNode"@,
            Bodies::FortunaPart => "FortunaPart"@,
            Bodies::Cupido => "Cupido"@,
            Bodies::Hades => "Hades"@,
            Bodies::Zeus => "Zeus"@,
            Bodies::Kronos => "Kronos"@,
            Bodies::Apollon => "Apollon"@,
            Bodies::Admetos => "Admetos"@,
            Bodies::Vulkanus => "Vulkanus"@,
            Bodies::Poseidon => "Poseidon"@,
            Bodies::Isis => "Isis"@,
            Bodies::Nibiru => "Nibiru"@,
            Bodies::Harrington => "Harrington"@,
            Bodies::NeptuneLeverrier => "NeptuneLeverrier"@,
            Bodies::NeptuneAdams => "NeptuneAdams"@,
            Bodies::PlutoLowell => "PlutoLowell"@,
            Bodies::PlutoPickering => "PlutoPickering"@,
            Bodies::AsteroidAstera => "AsteroidAstera"@,
            Bodies::AsteroidHebe => "AsteroidHebe"@,
            Bodies::AsteroidIris => "AsteroidIris"@,
            Bodies::AsteroidFlora => "AsteroidFlora"@,
            Bodies::AsteroidMetis => "AsteroidMetis"@,
            Bodies::AsteroidHygiea => "AsteroidHygiea"@,
            Bodies::AsteroidUrania => "AsteroidUrania"@,
            Bodies::AsteroidIsis => "AsteroidIsis"@,
            Bodies::AsteroidHilda => "AsteroidHilda"@,
            Bodies::AsteroidPhilosophia => "AsteroidPhilosophia"@,
            Bodies::AsteroidSophia => "AsteroidSophia"@,
            Bodies::AsteroidAletheia => "AsteroidAletheia"@,
            Bodies::AsteroidSapientia => "AsteroidSapientia"@,
            Bodies::AsteroidThule => "AsteroidThule"@,
            Bodies::AsteroidUrsula => "AsteroidUrsula"@,
            Bodies::AsteroidEros => "AsteroidEros"@,
            Bodies::AsteroidCupido => "AsteroidCupido"@,
            Bodies::AsteroidHidalgo => "AsteroidHidalgo"@,
            Bodies::AsteroidLilith => "AsteroidLilith"@,
            Bodies::AsteroidAmor => "AsteroidAmor"@,
            Bodies::AsteroidKama => "AsteroidKama"@,
            Bodies::AsteroidAphrodite => "AsteroidAphrodite"@,
            Bodies::AsteroidApollo => "AsteroidApollo"@,
            Bodies::AsteroidDamocles => "AsteroidDamocles"@,
            Bodies::AsteroidCruithne => "AsteroidCruithne"@,
            Bodies::AsteroidPoseidon => "AsteroidPoseidon"@,
            Bodies::AsteroidVulcano => "AsteroidVulcano"@,
            Bodies::AsteroidZeus => "AsteroidZeus"@,
            Bodies::AsteroidNessus => "AsteroidNessus"@,
        }
    }

    /// The bare body name, used wherever no translation overrides it.
    pub fn name(self) -> (r: String)
        ensures
            r@ == self.name_view(),
    {
        match self {
            Bodies::EclNut => String::from_str("EclNut"),
            Bodies::Sun => String::from_str("Sun"),
            Bodies::Moon => String::from_str("Moon"),
            Bodies::Mercury => String::from_str("Mercury"),
            Bodies::Venus => String::from_str("Venus"),
            Bodies::Mars => String::from_str("Mars"),
            Bodies::Jupiter => String::from_str("Jupiter"),
            Bodies::Saturn => String::from_str("Saturn"),
            Bodies::Uranus => String::from_str("Uranus"),
            Bodies::Neptune => String::from_str("Neptune"),
            Bodies::Pluto => String::from_str("Pluto"),
            Bodies::MeanNode => String::from_str("MeanNode"),
            Bodies::TrueNode => String::from_str("TrueNode"),
            Bodies::MeanApog => String::from_str("MeanApog"),
            Bodies::OscuApog => String::from_str("OscuApog"),
            Bodies::Earth => String::from_str("Earth"),
            Bodies::Chiron => String::from_str("Chiron"),
            Bodies::Pholus => String::from_str("Pholus"),
            Bodies::Ceres => String::from_str("Ceres"),
            Bodies::Pallas => String::from_str("Pallas"),
            Bodies::Juno => String::from_str("Juno"),
            Bodies::Vesta => String::from_str("Vesta"),
            Bodies::IntpApog => String::from_str("IntpApog"),
            Bodies::IntpPerg => String::from_str("IntpPerg"),
            Bodies::NPlanets => String::from_str("NPlanets"),
            Bodies::SouthNode => String::from_str("SouthNode"),
            Bodies::FortunaPart => String::from_str("FortunaPart"),
            Bodies::Cupido => String::from_str("Cupido"),
            Bodies::Hades => String::from_str("Hades"),
            Bodies::Zeus => String::from_str("Zeus"),
            Bodies::Kronos => String::from_str("Kronos"),
            Bodies::Apollon => String::from_str("Apollon"),
            Bodies::Admetos => String::from_str("Admetos"),
            Bodies::Vulkanus => String::from_str("Vulkanus"),
            Bodies::Poseidon => String::from_str("Poseidon"),
            Bodies::Isis => String::from_str("Isis"),
            Bodies::Nibiru => String::from_str("Nibiru"),
            Bodies::Harrington => String::from_str("Harrington"),
            Bodies::NeptuneLeverrier => String::from_str("NeptuneLeverrier"),
            Bodies::NeptuneAdams => String::from_str("NeptuneAdams"),
            Bodies::PlutoLowell => String::from_str("PlutoLowell"),
            Bodies::PlutoPickering => String::from_str("PlutoPickering"),
            Bodies::AsteroidAstera => String::from_str("AsteroidAstera"),
            Bodies::AsteroidHebe => String::from_str("AsteroidHebe"),
            Bodies::AsteroidIris => String::from_str("AsteroidIris"),
            Bodies::AsteroidFlora => String::from_str("AsteroidFlora"),
            Bodies::AsteroidMetis => String::from_str("AsteroidMetis"),
            Bodies::AsteroidHygiea => String::from_str("AsteroidHygiea"),
            Bodies::AsteroidUrania => String::from_str("AsteroidUrania"),
            Bodies::AsteroidIsis => String::from_str("AsteroidIsis"),
            Bodies::AsteroidHilda => String::from_str("AsteroidHilda"),
            Bodies::AsteroidPhilosophia => String::from_str("AsteroidPhilosophia"),
            Bodies::AsteroidSophia => String::from_str("AsteroidSophia"),
            Bodies::AsteroidAletheia => String::from_str("AsteroidAletheia"),
            Bodies::AsteroidSapientia => String::from_str("AsteroidSapientia"),
            Bodies::AsteroidThule => String::from_str("AsteroidThule"),
            Bodies::AsteroidUrsula => String::from_str("AsteroidUrsula"),
            Bodies::AsteroidEros => String::from_str("AsteroidEros"),
            Bodies::AsteroidCupido => String::from_str("AsteroidCupido"),
            Bodies::AsteroidHidalgo => String::from_str("AsteroidHidalgo"),
            Bodies::AsteroidLilith => String::from_str("AsteroidLilith"),
            Bodies::AsteroidAmor => String::from_str("AsteroidAmor"),
            Bodies::AsteroidKama => String::from_str("AsteroidKama"),
            Bodies::AsteroidAphrodite => String::from_str("AsteroidAphrodite"),
            Bodies::AsteroidApollo => String::from_str("AsteroidApollo"),
            Bodies::AsteroidDamocles => String::from_str("AsteroidDamocles"),
            Bodies::AsteroidCruithne => String::from_str("AsteroidCruithne"),
            Bodies::AsteroidPoseidon => String::from_str("AsteroidPoseidon"),
            Bodies::AsteroidVulcano => String::from_str("AsteroidVulcano"),
            Bodies::AsteroidZeus => String::from_str("AsteroidZeus"),
            Bodies::AsteroidNessus => String::from_str("AsteroidNessus"),
        }
    }

    /// The translated body name: a handful of bodies carry wording of
    /// their own, the rest fall back to the bare name.
    pub open spec fn text_view(self, lang: Language) -> Seq<char> {
        match lang {
            Language::English => match self {
                Bodies::TrueNode => "North node"@,
                Bodies::SouthNode => "South node"@,
                Bodies::FortunaPart => "Fortuna part"@,
                _ => self.name_view(),
            },
            Language::French => match self {
                Bodies::Sun => "Soleil"@,
                Bodies::Moon => "Lune"@,
                Bodies::Mercury => "Mercure"@,
                Bodies::Venus => "Venus"@,
                Bodies::Mars => "Mars"@,
                Bodies::Jupiter => "Jupiter"@,
                Bodies::Saturn => "Saturne"@,
                Bodies::Uranus => "Uranus"@,
                Bodies::Neptune => "Neptune"@,
                Bodies::Pluto => "Pluton"@,
                Bodies::TrueNode => "Noeud nord"@,
                Bodies::Chiron => "Chiron"@,
                Bodies::Ceres => "Ceres"@,
                Bodies::SouthNode => "Noeud sud"@,
                Bodies::FortunaPart => "Part de fortune"@,
                _ => self.name_view(),
            },
        }
    }

    /// Text translate.
    pub fn text(self, lang: Language) -> (r: String)
        ensures
            r@ == self.text_view(lang),
    {
        match lang {
            Language::English => match self {
                Bodies::TrueNode => String::from_str("North node"),
                Bodies::SouthNode => String::from_str("South node"),
                Bodies::FortunaPart => String::from_str("Fortuna part"),
                _ => self.name(),
            },
            Language::French => match self {
                Bodies::Sun => String::from_str("Soleil"),
                Bodies::Moon => String::from_str("Lune"),
                Bodies::Mercury => String::from_str("Mercure"),
                Bodies::Venus => String::from_str("Venus"),
                Bodies::Mars => String::from_str("Mars"),
                Bodies::Jupiter => String::from_str("Jupiter"),
                Bodies::Saturn => String::from_str("Saturne"),
                Bodies::Uranus => String::from_str("Uranus"),
                Bodies::Neptune => String::from_str("Neptune"),
                Bodies::Pluto => String::from_str("Pluton"),
                Bodies::TrueNode => String::from_str("Noeud nord"),
                Bodies::Chiron => String::from_str("Chiron"),
                Bodies::Ceres => String::from_str("Ceres"),
                Bodies::SouthNode => String::from_str("Noeud sud"),
                Bodies::FortunaPart => String::from_str("Part de fortune"),
                _ => self.name(),
            },
        }
    }

    /// The body actually queried from the ephemeris: the South Node has
    /// no entry of its own and is derived from the True Node instead.
    pub fn ephemeris_body(self) -> (r: Bodies)
        ensures
            r == if self == Bodies::SouthNode {
                Bodies::TrueNode
            } else {
                self
            },
    {
        if self == Bodies::SouthNode {
            Bodies::TrueNode
        } else {
            self
        }
    }
}

} // verus!
