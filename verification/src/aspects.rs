//! The aspects: angular relations between two bodies, each with its
//! angle, its orb, and whether tradition counts it as major.

use vstd::prelude::*;
use vstd::string::StringExecFns;

verus! {

use crate::Language;

/// The nine aspects the engine distinguishes.
#[derive(Debug, Clone, Copy, PartialEq, Eq, Structural)]
pub enum Aspects {
    Conjunction,
    Opposition,
    Trine,
    Square,
    Sextile,
    Inconjunction,
    Sesquisquare,
    Semisquare,
    Semisextile,
}

impl Aspects {
    /// The aspect's angle in degrees and its orb in degrees.
    pub open spec fn angle_spec(self) -> (u16, u16) {
        match self {
            Aspects::Conjunction => (0u16, 10u16),
            Aspects::Opposition => (180u16, 8u16),
            Aspects::Trine => (120u16, 7u16),
            Aspects::Square => (90u16, 6u16),
            Aspects::Sextile => (60u16, 5u16),
            Aspects::Inconjunction => (150u16, 2u16),
            Aspects::Sesquisquare => (135u16, 1u16),
            Aspects::Semisquare => (45u16, 1u16),
            Aspects::Semisextile => (30u16, 1u16),
        }
    }

    /// Aspect propriety: the pair of angle and orb.
    pub fn angle(self) -> (r: (u16, u16))
        ensures
            r == self.angle_spec(),
    {
        match self {
            Aspects::Conjunction => (0, 10),
            Aspects::Opposition => (180, 8),
            Aspects::Trine => (120, 7),
            Aspects::Square => (90, 6),
            Aspects::Sextile => (60, 5),
            Aspects::Inconjunction => (150, 2),
            Aspects::Sesquisquare => (135, 1),
            Aspects::Semisquare => (45, 1),
            Aspects::Semisextile => (30, 1),
        }
    }

    /// The five classical major aspects.
    pub open spec fn is_major(self) -> bool {
        ||| self == Aspects::Conjunction
        ||| self == Aspects::Opposition
        ||| self == Aspects::Trine
        ||| self == Aspects::Square
        ||| self == Aspects::Sextile
    }

    /// Major aspect test.
    pub fn maj(self) -> (r: bool)
        ensures
            r == self.is_major(),
    {
        match self {
            Aspects::Conjunction => true,
            Aspects::Opposition => true,
            Aspects::Trine => true,
            Aspects::Square => true,
            Aspects::Sextile => true,
            _ => false,
        }
    }

    /// The translated aspect name.
    pub open spec fn text_view(self, lang: Language) -> Seq<char> {
        match lang {
            Language::English => match self {
                Aspects::Conjunction => "Conjunction"@,
                Aspects::Opposition => "Opposition"@,
                Aspects::Trine => "Trine"@,
                Aspects::Square => "Square"@,
                Aspects::Sextile => "Sextile"@,
                Aspects::Inconjunction => "Inconjunction"@,
                Aspects::Sesquisquare => "Sesquisquare"@,
                Aspects::Semisquare => "Semisquare"@,
                Aspects::Semisextile => "Semisextile"@,
            },
            Language::French => match self {
                Aspects::Conjunction => "Conjonction"@,
                Aspects::Opposition => "Opposition"@,
                Aspects::Trine => "Trigone"@,
                Aspects::Square => "Quadrature"@,
                Aspects::Sextile => "Sextile"@,
                Aspects::Inconjunction => "Quinconce"@,
                Aspects::Sesquisquare => "Sesqui-carré"@,
                Aspects::Semisquare => "Demi-carré"@,
                Aspects::Semisextile => "Demi-sextile"@,
            },
        }
    }

    /// The translated aspect name.
    pub fn text(self, lang: Language) -> (r: String)
        ensures
            r@ == self.text_view(lang),
    {
        match lang {
            Language::English => match self {
                Aspects::Conjunction => String::from_str("Conjunction"),
                Aspects::Opposition => String::from_str("Opposition"),
                Aspects::Trine => String::from_str("Trine"),
                Aspects::Square => String::from_str("Square"),
                Aspects::Sextile => String::from_str("Sextile"),
                Aspects::Inconjunction => String::from_str("Inconjunction"),
                Aspects::Sesquisquare => String::from_str("Sesquisquare"),
                Aspects::Semisquare => String::from_str("Semisquare"),
                Aspects::Semisextile => String::from_str("Semisextile"),
            },
            Language::French => match self {
                Aspects::Conjunction => String::from_str("Conjonction"),
                Aspects::Opposition => String::from_str("Opposition"),
                Aspects::Trine => String::from_str("Trigone"),
                Aspects::Square => String::from_str("Quadrature"),
                Aspects::Sextile => String::from_str("Sextile"),
                Aspects::Inconjunction => String::from_str("Quinconce"),
                Aspects::Sesquisquare => String::from_str("Sesqui-carré"),
                Aspects::Semisquare => String::from_str("Demi-carré"),
                Aspects::Semisextile => String::from_str("Demi-sextile"),
            },
        }
    }
}

} // verus!
