use astro_engine::ephemeris::{south_node_from_true_node, upstream_check, CalcError, CalcUtResult};
use astro_engine::fortuna::{fortuna_longitude, midheaven_input, south_node_longitude};
use astro_engine::signs::Signs;
use astro_engine::split::{split_deg, Rounding};

const DEG: i64 = 3_600_000;

#[test]
fn fortuna_diurnal_scenario() {
    // Sun 10, Moon 100, Ascendant 200, day birth:
    // 200 + 100 - 10 = 290 degrees.
    let lon = fortuna_longitude(200 * DEG, 100 * DEG, 10 * DEG, true);
    assert_eq!(lon, 290 * DEG);
    let s = split_deg(lon, Rounding::Truncate);
    assert_eq!(s.sign, Signs::Capricorn);
    assert_eq!(s.deg, 20);
    assert_eq!(s.min, 0);
    assert_eq!(s.sec, 0);
}

#[test]
fn fortuna_nocturnal_swaps_sun_and_moon() {
    // Night birth: 200 + 10 - 100 = 110 degrees.
    let lon = fortuna_longitude(200 * DEG, 100 * DEG, 10 * DEG, false);
    assert_eq!(lon, 110 * DEG);
}

#[test]
fn fortuna_wraps_into_range() {
    // 300 + 350 - 10 = 640 wraps to 280 degrees.
    let lon = fortuna_longitude(300 * DEG, 350 * DEG, 10 * DEG, true);
    assert_eq!(lon, 280 * DEG);
}

#[test]
fn south_node_scenario() {
    // True Node at 50 degrees puts the South Node at exactly 230.
    assert_eq!(south_node_longitude(50 * DEG), 230 * DEG);
    assert_eq!(south_node_longitude(230 * DEG), 50 * DEG);
}

#[test]
fn south_node_inherits_true_node_fields() {
    let true_node = CalcUtResult {
        longitude: 50 * DEG,
        latitude: 2 * DEG,
        distance_au: 2_500_000,
        speed_longitude: -900,
        speed_latitude: 40,
        speed_distance_au: 7,
        status: 0,
        serr: String::new(),
    };
    let south = south_node_from_true_node(&true_node);
    assert_eq!(south.longitude, 230 * DEG);
    assert_eq!(south.latitude, true_node.latitude);
    assert_eq!(south.distance_au, true_node.distance_au);
    assert_eq!(south.speed_longitude, true_node.speed_longitude);
    assert_eq!(south.speed_latitude, true_node.speed_latitude);
    assert_eq!(south.speed_distance_au, true_node.speed_distance_au);
    assert_eq!(south.status, 0);
    assert_eq!(south.serr, "");
}

#[test]
fn upstream_gate_accepts_clean_answers() {
    assert_eq!(upstream_check(0, ""), Ok(()));
}

#[test]
fn upstream_gate_propagates_status() {
    let e = upstream_check(-1, "").unwrap_err();
    assert_eq!(e, CalcError::UpstreamFailure { status: -1, message: String::new() });
}

#[test]
fn upstream_gate_propagates_error_text() {
    let e = upstream_check(0, "file not found").unwrap_err();
    match e {
        CalcError::UpstreamFailure { status, message } => {
            assert_eq!(status, 0);
            assert_eq!(message, "file not found");
        }
        other => panic!("unexpected error {:?}", other),
    }
}

#[test]
fn midheaven_legacy_reuses_ascendant_cusp() {
    assert_eq!(midheaven_input(200 * DEG, 115 * DEG, false), 200 * DEG);
    assert_eq!(midheaven_input(200 * DEG, 115 * DEG, true), 115 * DEG);
}
