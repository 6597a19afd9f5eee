//! The zodiac signs and the four classical elements.

use vstd::prelude::*;
use vstd::string::StringExecFns;

verus! {

use crate::Language;

/// Zodiac sign, in the fixed cyclic order starting at Aries.
#[derive(Debug, Clone, Copy, PartialEq, Eq, Structural)]
pub enum Signs {
    Aries,
    Taurus,
    Gemini,
    Cancer,
    Leo,
    Virgo,
    Libra,
    Scorpio,
    Sagittarius,
    Capricorn,
    Aquarius,
    Pisces,
}

/// Classical element.
#[derive(Debug, Clone, Copy, PartialEq, Eq, Structural)]
pub enum Element {
    Fire,
    Earth,
    Wind,
    Water,
}

impl Element {
    /// The element's display color.
    pub open spec fn color_spec(self) -> int {
        match self {
            Element::Fire => 0xFF0000,
            Element::Earth => 0xFFC200,
            Element::Wind => 0x00C42A,
            Element::Water => 0x0B34FF,
        }
    }

    /// The element's display color.
    pub fn color(self) -> (r: i32)
        ensures
            r == self.color_spec(),
    {
        match self {
            Element::Fire => 0xFF0000,
            Element::Earth => 0xFFC200,
            Element::Wind => 0x00C42A,
            Element::Water => 0x0B34FF,
        }
    }
}

/// The sign at a zero-based position in the cyclic zodiac sequence.
pub open spec fn sign_of_index(i: int) -> Signs {
    if i == 0 {
        Signs::Aries
    } else if i == 1 {
        Signs::Taurus
    } else if i == 2 {
        Signs::Gemini
    } else if i == 3 {
        Signs::Cancer
    } else if i == 4 {
        Signs::Leo
    } else if i == 5 {
        Signs::Virgo
    } else if i == 6 {
        Signs::Libra
    } else if i == 7 {
        Signs::Scorpio
    } else if i == 8 {
        Signs::Sagittarius
    } else if i == 9 {
        Signs::Capricorn
    } else if i == 10 {
        Signs::Aquarius
    } else {
        Signs::Pisces
    }
}

impl Signs {
    /// The sign at a zero-based index into the zodiac sequence
    /// (0 is Aries, 11 is Pisces).
    pub fn from_index(i: usize) -> (r: Signs)
        requires
            i < 12,
        ensures
            r == sign_of_index(i as int),
    {
        match i {
            0 => Signs::Aries,
            1 => Signs::Taurus,
            2 => Signs::Gemini,
            3 => Signs::Cancer,
            4 => Signs::Leo,
            5 => Signs::Virgo,
            6 => Signs::Libra,
            7 => Signs::Scorpio,
            8 => Signs::Sagittarius,
            9 => Signs::Capricorn,
            10 => Signs::Aquarius,
            _ => Signs::Pisces,
        }
    }

    /// The translated name of the sign.
    pub open spec fn text_view(self, lang: Language) -> Seq<char> {
        match lang {
            Language::English => match self {
                Signs::Aries => "Aries"@,
                Signs::Taurus => "Taurus"@,
                Signs::Gemini => "Gemini"@,
                Signs::Cancer => "Cancer"@,
                Signs::Leo => "Leo"@,
                Signs::Virgo => "Virgo"@,
                Signs::Libra => "Libra"@,
                Signs::Scorpio => "Scorpio"@,
                Signs::Sagittarius => "Sagittarius"@,
                Signs::Capricorn => "Capricorn"@,
                Signs::Aquarius => "Aquarius"@,
                Signs::Pisces => "Pisces"@,
            },
            Language::French => match self {
                Signs::Aries => "Belier"@,
                Signs::Taurus => "Taureau"@,
                Signs::Gemini => "Gemaux"@,
                Signs::Cancer => "Cancer"@,
                Signs::Leo => "Lio"@,
                Signs::Virgo => "Vierge"@,
                Signs::Libra => "Balance"@,
                Signs::Scorpio => "Scorpion"@,
                Signs::Sagittarius => "Sagittaire"@,
                Signs::Capricorn => "Capricorne"@,
                Signs::Aquarius => "Verseau"@,
                Signs::Pisces => "Poisson"@,
            },
        }
    }

    /// Text for translation.
    pub fn text(self, lang: Language) -> (r: String)
        ensures
            r@ == self.text_view(lang),
    {
        match lang {
            Language::English => match self {
                Signs::Aries => String::from_str("Aries"),
                Signs::Taurus => String::from_str("Taurus"),
                Signs::Gemini => String::from_str("Gemini"),
                Signs::Cancer => String::from_str("Cancer"),
                Signs::Leo => String::from_str("Leo"),
                Signs::Virgo => String::from_str("Virgo"),
                Signs::Libra => String::from_str("Libra"),
                Signs::Scorpio => String::from_str("Scorpio"),
                Signs::Sagittarius => String::from_str("Sagittarius"),
                Signs::Capricorn => String::from_str("Capricorn"),
                Signs::Aquarius => String::from_str("Aquarius"),
                Signs::Pisces => String::from_str("Pisces"),
            },
            Language::French => match self {
                Signs::Aries => String::from_str("Belier"),
                Signs::Taurus => String::from_str("Taureau"),
                Signs::Gemini => String::from_str("Gemaux"),
                Signs::Cancer => String::from_str("Cancer"),
                Signs::Leo => String::from_str("Lio"),
                Signs::Virgo => String::from_str("Vierge"),
                Signs::Libra => String::from_str("Balance"),
                Signs::Scorpio => String::from_str("Scorpion"),
                Signs::Sagittarius => String::from_str("Sagittaire"),
                Signs::Capricorn => String::from_str("Capricorne"),
                Signs::Aquarius => String::from_str("Verseau"),
                Signs::Pisces => String::from_str("Poisson"),
            },
        }
    }
}

} // verus!
