use astro_engine::signs::Signs;
use astro_engine::split::{split_deg, Rounding, SplitDegResult};

const SEC: i64 = 1_000;
const MIN: i64 = 60_000;
const DEG: i64 = 3_600_000;
const SIGN: i64 = 108_000_000;

fn reassemble(index: i64, s: &SplitDegResult) -> i64 {
    index * SIGN + s.deg as i64 * DEG + s.min as i64 * MIN + s.sec as i64 * SEC + s.frac_mas
}

#[test]
fn truncate_simple() {
    // 290 deg 20' 30.5"
    let l = 290 * DEG + 20 * MIN + 30 * SEC + 500;
    let s = split_deg(l, Rounding::Truncate);
    assert_eq!(s.sign, Signs::Capricorn);
    assert_eq!(s.deg, 20);
    assert_eq!(s.min, 20);
    assert_eq!(s.sec, 30);
    assert_eq!(s.frac_mas, 500);
    assert_eq!(s.print, "20°20'30");
    assert_eq!(reassemble(9, &s), l);
}

#[test]
fn truncate_negative_longitude() {
    // -1 degree normalizes to 359 degrees: Pisces 29.
    let s = split_deg(-DEG, Rounding::Truncate);
    assert_eq!(s.sign, Signs::Pisces);
    assert_eq!(s.deg, 29);
    assert_eq!(s.min, 0);
    assert_eq!(s.sec, 0);
    assert_eq!(s.frac_mas, 0);
    assert_eq!(reassemble(11, &s), 359 * DEG);
}

#[test]
fn truncate_sign_table() {
    for (i, sign) in [
        Signs::Aries,
        Signs::Taurus,
        Signs::Gemini,
        Signs::Cancer,
        Signs::Leo,
        Signs::Virgo,
        Signs::Libra,
        Signs::Scorpio,
        Signs::Sagittarius,
        Signs::Capricorn,
        Signs::Aquarius,
        Signs::Pisces,
    ]
    .into_iter()
    .enumerate()
    {
        let s = split_deg(i as i64 * SIGN + 7 * DEG, Rounding::Truncate);
        assert_eq!(s.sign, sign);
        assert_eq!(s.deg, 7);
    }
}

#[test]
fn round_to_nearest_second_up() {
    // 10 deg 10' 10.6" rounds up to 10 deg 10' 11".
    let s = split_deg(10 * DEG + 10 * MIN + 10 * SEC + 600, Rounding::NearestSecond);
    assert_eq!(s.sign, Signs::Aries);
    assert_eq!(s.deg, 10);
    assert_eq!(s.min, 10);
    assert_eq!(s.sec, 11);
    assert_eq!(s.frac_mas, 0);
}

#[test]
fn round_to_nearest_second_down() {
    // 10 deg 10' 10.4" rounds down to 10 deg 10' 10".
    let s = split_deg(10 * DEG + 10 * MIN + 10 * SEC + 400, Rounding::NearestSecond);
    assert_eq!(s.deg, 10);
    assert_eq!(s.min, 10);
    assert_eq!(s.sec, 10);
    assert_eq!(s.frac_mas, 0);
}

#[test]
fn round_carries_into_next_sign() {
    // Aries 29 deg 59' 59.6" rounds to Taurus 0 deg 0' 0".
    let s = split_deg(30 * DEG - 400, Rounding::NearestSecond);
    assert_eq!(s.sign, Signs::Taurus);
    assert_eq!(s.deg, 0);
    assert_eq!(s.min, 0);
    assert_eq!(s.sec, 0);
    assert_eq!(s.frac_mas, 0);
    assert_eq!(s.print, "0°00'00");
}

#[test]
fn round_carry_wraps_from_pisces_to_aries() {
    // 359 deg 59' 59.9" rounds across the year boundary back to Aries.
    let s = split_deg(360 * DEG - 100, Rounding::NearestSecond);
    assert_eq!(s.sign, Signs::Aries);
    assert_eq!(s.deg, 0);
    assert_eq!(s.min, 0);
    assert_eq!(s.sec, 0);
}

#[test]
fn print_single_digit_degree() {
    let s = split_deg(5 * DEG + 7 * MIN + 3 * SEC, Rounding::Truncate);
    assert_eq!(s.print, "5°07'03");
}

#[test]
fn print_two_digit_degree() {
    let s = split_deg(SIGN + 23 * DEG + 59 * MIN + 59 * SEC + 999, Rounding::Truncate);
    assert_eq!(s.print, "23°59'59");
    assert_eq!(s.sign, Signs::Taurus);
}

#[test]
fn reconstruction_within_one_arc_second() {
    // The reassembled split never strays more than one arc-second
    // from the normalized longitude, in either rounding mode.
    for l in [0, 3 * DEG + 1234, 179 * DEG + 59 * MIN + 500, -41 * DEG - 7, 400 * DEG + 999] {
        let t = split_deg(l, Rounding::Truncate);
        let norm = ((l % (360 * DEG)) + 360 * DEG) % (360 * DEG);
        let idx = norm / SIGN;
        assert_eq!(reassemble(idx, &t), norm);
        let r = split_deg(l, Rounding::NearestSecond);
        let within = r.deg as i64 * DEG + r.min as i64 * MIN + r.sec as i64 * SEC;
        let rounded_or_carried = if r.sign == t.sign {
            idx * SIGN + within
        } else {
            (idx + 1) * SIGN + within
        };
        assert!((rounded_or_carried - norm).abs() <= SEC);
    }
}

#[test]
fn signs_from_index_cycle() {
    assert_eq!(Signs::from_index(0), Signs::Aries);
    assert_eq!(Signs::from_index(8), Signs::Sagittarius);
    assert_eq!(Signs::from_index(11), Signs::Pisces);
}
