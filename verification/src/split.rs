//! The degree splitter: decomposes an ecliptic longitude into zodiac
//! sign, degree, arc-minute, arc-second and a leftover fraction, with a
//! choice between truncating at the arc-second and rounding to the
//! nearest arc-second (a round-up at 29 deg 59' 59.5" carries into the
//! next sign).
//!
//! The sign index is always recomputed here from the longitude itself:
//! external splitting routines are known to report an unreliable sign
//! number, so nothing in this crate trusts one.

use vstd::prelude::*;
use vstd::string::StringExecFns;

verus! {

use vstd::arithmetic::div_mod::{
    lemma_fundamental_div_mod,
    lemma_hoist_over_denominator,
    lemma_mod_division_less_than_divisor,
    lemma_mod_multiples_vanish,
    lemma_small_mod,
    lemma_div_pos_is_pos,
    lemma_div_is_ordered,
};
use crate::angle::{
    degnorm,
    lemma_norm360_range,
    norm360,
    MAS_PER_DEGREE,
    MAS_PER_MINUTE,
    MAS_PER_SECOND,
    SIGN_SEGMENT_MAS,
    TURN_MAS,
};
use crate::signs::{sign_of_index, Signs};

/// Arc-seconds in one 30-degree zodiac segment.
pub const SECONDS_PER_SIGN: i64 = 108_000;

/// How the arc-second boundary is treated when splitting a longitude.
#[derive(Debug, Clone, Copy, PartialEq, Eq, Structural)]
pub enum Rounding {
    /// Keep the integer arc-second and report the leftover fraction.
    Truncate,
    /// Round to the nearest arc-second, carrying overflow up through
    /// minute, degree and sign.
    NearestSecond,
}

/// An ecliptic longitude decomposed within its 30-degree sign segment.
#[derive(Debug, Clone, PartialEq)]
pub struct SplitDegResult {
    /// Human-readable rendering, degrees then minutes then seconds.
    pub print: String,
    /// Whole degrees within the sign, 0 to 29.
    pub deg: i32,
    /// Whole arc-minutes, 0 to 59.
    pub min: i32,
    /// Whole arc-seconds, 0 to 59.
    pub sec: i32,
    /// Leftover below one arc-second, in milliarcseconds.
    pub frac_mas: i64,
    /// The zodiac sign of the segment.
    pub sign: Signs,
}

/// Zero-based zodiac sign index of a longitude.
pub open spec fn sign_index_spec(l: int) -> int {
    norm360(l) / (SIGN_SEGMENT_MAS as int)
}

/// The sign index is the floor of the longitude over 30 degrees, taken
/// modulo 12 -- a true floor, so negative longitudes land in the right
/// sign as well.
pub proof fn lemma_sign_index_floor(l: int)
    ensures
        0 <= sign_index_spec(l) < 12,
        sign_index_spec(l) == (l / (SIGN_SEGMENT_MAS as int)) % 12,
{
    let s = SIGN_SEGMENT_MAS as int;
    let t = TURN_MAS as int;
    lemma_norm360_range(l);
    let r = norm360(l);
    lemma_fundamental_div_mod(l, t);
    let q = l / t;
    assert(0 <= r / s < 12) by {
        lemma_div_pos_is_pos(r, s);
        lemma_div_is_ordered(r, t - 1, s);
        vstd::arithmetic::div_mod::lemma_fundamental_div_mod_converse_div(t - 1, s, 11, s - 1);
    }
    assert(l == r + (12 * q) * s) by {
        assert(l == t * q + r);
    }
    lemma_hoist_over_denominator(r, 12 * q, s as nat);
    assert(l / s == r / s + 12 * q);
    lemma_mod_multiples_vanish(q, r / s, 12);
    lemma_small_mod((r / s) as nat, 12nat);
}

/// Bounds that every split obeys.
pub open spec fn split_fields_valid(s: SplitDegResult) -> bool {
    &&& 0 <= s.deg < 30
    &&& 0 <= s.min < 60
    &&& 0 <= s.sec < 60
    &&& 0 <= s.frac_mas < MAS_PER_SECOND
}

/// The truncating split of longitude `l`: sign, degree, minute, second
/// and fraction reassemble exactly to the normalized longitude.
pub open spec fn is_truncated_split(l: int, s: SplitDegResult) -> bool {
    &&& split_fields_valid(s)
    &&& s.sign == sign_of_index(sign_index_spec(l))
    &&& sign_index_spec(l) * SIGN_SEGMENT_MAS + s.deg * MAS_PER_DEGREE + s.min * MAS_PER_MINUTE
        + s.sec * MAS_PER_SECOND + s.frac_mas == norm360(l)
}

/// The whole arc-seconds of `l` within its sign, rounded to nearest
/// (ties away from the lower second).
pub open spec fn rounded_seconds(l: int) -> int {
    (norm360(l) % (SIGN_SEGMENT_MAS as int) + 500) / (MAS_PER_SECOND as int)
}

/// The rounding split of longitude `l`: the fraction is consumed by the
/// rounding, and a round-up at the top of the segment carries into the
/// next sign at 0 deg 0' 0".
pub open spec fn is_rounded_split(l: int, s: SplitDegResult) -> bool {
    &&& split_fields_valid(s)
    &&& s.frac_mas == 0
    &&& if rounded_seconds(l) < SECONDS_PER_SIGN {
        &&& s.sign == sign_of_index(sign_index_spec(l))
        &&& s.deg * 3600 + s.min * 60 + s.sec == rounded_seconds(l)
    } else {
        &&& s.sign == sign_of_index((sign_index_spec(l) + 1) % 12)
        &&& s.deg == 0
        &&& s.min == 0
        &&& s.sec == 0
    }
}

/// What a truncating split promises, stated over the raw longitude:
/// the sign is the floor of the longitude over 30 degrees taken modulo
/// 12, and degree, minute, second and fraction reassemble exactly to
/// the longitude's remainder within its 30-degree segment.
pub proof fn lemma_split_reconstruction(l: int, s: SplitDegResult)
    requires
        is_truncated_split(l, s),
    ensures
        s.sign == sign_of_index((l / (SIGN_SEGMENT_MAS as int)) % 12),
        s.deg * MAS_PER_DEGREE + s.min * MAS_PER_MINUTE + s.sec * MAS_PER_SECOND + s.frac_mas
            == norm360(l) % (SIGN_SEGMENT_MAS as int),
{
    lemma_sign_index_floor(l);
    let within = s.deg * MAS_PER_DEGREE + s.min * MAS_PER_MINUTE + s.sec * MAS_PER_SECOND
        + s.frac_mas;
    vstd::arithmetic::div_mod::lemma_fundamental_div_mod_converse_mod(
        norm360(l),
        SIGN_SEGMENT_MAS as int,
        sign_index_spec(l),
        within,
    );
}

/// The decimal digit character for `d`.
pub open spec fn digit_char(d: int) -> char {
    if d == 0 {
        '0'
    } else if d == 1 {
        '1'
    } else if d == 2 {
        '2'
    } else if d == 3 {
        '3'
    } else if d == 4 {
        '4'
    } else if d == 5 {
        '5'
    } else if d == 6 {
        '6'
    } else if d == 7 {
        '7'
    } else if d == 8 {
        '8'
    } else {
        '9'
    }
}

/// Two-digit zero-padded decimal rendering.
pub open spec fn two_digits(n: int) -> Seq<char> {
    seq![digit_char(n / 10), digit_char(n % 10)]
}

/// The rendering of a split: degrees (unpadded), a degree mark, then
/// two-digit minutes, a prime mark, and two-digit seconds.
pub open spec fn print_view(deg: int, min: int, sec: int) -> Seq<char> {
    (if deg < 10 {
        seq![digit_char(deg)]
    } else {
        two_digits(deg)
    }) + seq!['°'] + two_digits(min) + seq!['\''] + two_digits(sec)
}

fn digit_str(d: i64) -> (r: &'static str)
    requires
        0 <= d < 10,
    ensures
        r@ == seq![digit_char(d as int)],
{
    match d {
        0 => {
            proof {
                reveal_strlit("0");
            }
            assert("0"@ =~= seq![digit_char(0)]);
            "0"
        },
        1 => {
            proof {
                reveal_strlit("1");
            }
            assert("1"@ =~= seq![digit_char(1)]);
            "1"
        },
        2 => {
            proof {
                reveal_strlit("2");
            }
            assert("2"@ =~= seq![digit_char(2)]);
            "2"
        },
        3 => {
            proof {
                reveal_strlit("3");
            }
            assert("3"@ =~= seq![digit_char(3)]);
            "3"
        },
        4 => {
            proof {
                reveal_strlit("4");
            }
            assert("4"@ =~= seq![digit_char(4)]);
            "4"
        },
        5 => {
            proof {
                reveal_strlit("5");
            }
            assert("5"@ =~= seq![digit_char(5)]);
            "5"
        },
        6 => {
            proof {
                reveal_strlit("6");
            }
            assert("6"@ =~= seq![digit_char(6)]);
            "6"
        },
        7 => {
            proof {
                reveal_strlit("7");
            }
            assert("7"@ =~= seq![digit_char(7)]);
            "7"
        },
        8 => {
            proof {
                reveal_strlit("8");
            }
            assert("8"@ =~= seq![digit_char(8)]);
            "8"
        },
        _ => {
            proof {
                reveal_strlit("9");
            }
            assert("9"@ =~= seq![digit_char(9)]);
            "9"
        },
    }
}

fn push_two_digits(s: &mut String, n: i64)
    requires
        0 <= n < 100,
    ensures
        final(s)@ == old(s)@ + two_digits(n as int),
{
    s.append(digit_str(n / 10));
    s.append(digit_str(n % 10));
    assert(final(s)@ =~= old(s)@ + two_digits(n as int));
}

/// Renders "D°MM'SS" for a split already reduced to its ranges.
fn render_print(deg: i64, min: i64, sec: i64) -> (r: String)
    requires
        0 <= deg < 30,
        0 <= min < 60,
        0 <= sec < 60,
    ensures
        r@ == print_view(deg as int, min as int, sec as int),
{
    let mut s = String::new();
    if deg < 10 {
        s.append(digit_str(deg));
    } else {
        s.append(digit_str(deg / 10));
        s.append(digit_str(deg % 10));
    }
    proof {
        reveal_strlit("°");
        reveal_strlit("'");
    }
    assert("°"@ =~= seq!['°']);
    assert("'"@ =~= seq!['\'']);
    s.append("°");
    push_two_digits(&mut s, min);
    s.append("'");
    push_two_digits(&mut s, sec);
    assert(s@ =~= print_view(deg as int, min as int, sec as int));
    s
}

/// Splits an ecliptic longitude into sign, degree, minute, second and
/// fraction, with the requested rounding mode, and renders the display
/// string.  Total over every fixed-point longitude; the sign index is
/// computed here, never taken from outside.
pub fn split_deg(ddeg: i64, roundflag: Rounding) -> (r: SplitDegResult)
    ensures
        roundflag == Rounding::Truncate ==> is_truncated_split(ddeg as int, r),
        roundflag == Rounding::NearestSecond ==> is_rounded_split(ddeg as int, r),
        r.print@ == print_view(r.deg as int, r.min as int, r.sec as int),
{
    let n = degnorm(ddeg);
    let idx = n / SIGN_SEGMENT_MAS;
    let rem = n % SIGN_SEGMENT_MAS;
    proof {
        lemma_fundamental_div_mod(n as int, SIGN_SEGMENT_MAS as int);
        lemma_mod_division_less_than_divisor(n as int, SIGN_SEGMENT_MAS as int);
        lemma_sign_index_floor(ddeg as int);
    }
    match roundflag {
        Rounding::Truncate => {
            let deg = rem / MAS_PER_DEGREE;
            let rem2 = rem % MAS_PER_DEGREE;
            let min = rem2 / MAS_PER_MINUTE;
            let rem3 = rem2 % MAS_PER_MINUTE;
            let sec = rem3 / MAS_PER_SECOND;
            let frac = rem3 % MAS_PER_SECOND;
            proof {
                lemma_fundamental_div_mod(rem as int, MAS_PER_DEGREE as int);
                lemma_mod_division_less_than_divisor(rem as int, MAS_PER_DEGREE as int);
                lemma_fundamental_div_mod(rem2 as int, MAS_PER_MINUTE as int);
                lemma_mod_division_less_than_divisor(rem2 as int, MAS_PER_MINUTE as int);
                lemma_fundamental_div_mod(rem3 as int, MAS_PER_SECOND as int);
                lemma_mod_division_less_than_divisor(rem3 as int, MAS_PER_SECOND as int);
            }
            let sign = Signs::from_index(idx as usize);
            let print = render_print(deg, min, sec);
            SplitDegResult {
                print,
                deg: deg as i32,
                min: min as i32,
                sec: sec as i32,
                frac_mas: frac,
                sign,
            }
        },
        Rounding::NearestSecond => {
            let rs = (rem + 500) / MAS_PER_SECOND;
            proof {
                lemma_fundamental_div_mod(rem + 500, MAS_PER_SECOND as int);
                lemma_mod_division_less_than_divisor(rem + 500, MAS_PER_SECOND as int);
            }
            if rs >= SECONDS_PER_SIGN {
                let sign = Signs::from_index(((idx + 1) % 12) as usize);
                let print = render_print(0, 0, 0);
                SplitDegResult { print, deg: 0, min: 0, sec: 0, frac_mas: 0, sign }
            } else {
                let deg = rs / 3600;
                let rem2 = rs % 3600;
                let min = rem2 / 60;
                let sec = rem2 % 60;
                proof {
                    lemma_fundamental_div_mod(rs as int, 3600int);
                    lemma_mod_division_less_than_divisor(rs as int, 3600int);
                    lemma_fundamental_div_mod(rem2 as int, 60int);
                    lemma_mod_division_less_than_divisor(rem2 as int, 60int);
                }
                let sign = Signs::from_index(idx as usize);
                let print = render_print(deg, min, sec);
                SplitDegResult {
                    print,
                    deg: deg as i32,
                    min: min as i32,
                    sec: sec as i32,
                    frac_mas: 0,
                    sign,
                }
            }
        },
    }
}

} // verus!
