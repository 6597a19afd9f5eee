use astro_engine::equatorial::{initial_right_ascension, near_node, resolve_right_ascension};
use astro_engine::horizon::{dnarcs, is_above_horizon};
use astro_engine::motion::{motion_state, ObjectPos};

const DEG: i64 = 3_600_000;

#[test]
fn motion_stationary_band_is_exclusive() {
    // 0.0003 degrees per day is 1080 milliarcseconds per day.
    assert_eq!(motion_state(0), ObjectPos::Stationary);
    assert_eq!(motion_state(1_079), ObjectPos::Stationary);
    assert_eq!(motion_state(-1_079), ObjectPos::Stationary);
    assert_eq!(motion_state(1_080), ObjectPos::Direct);
    assert_eq!(motion_state(-1_080), ObjectPos::Retrograde);
    assert_eq!(motion_state(50_000), ObjectPos::Direct);
    assert_eq!(motion_state(-50_000), ObjectPos::Retrograde);
}

#[test]
fn arcs_always_sum_to_a_turn() {
    let flat = dnarcs(0);
    assert_eq!(flat.diurnal_mas, 180 * DEG);
    assert_eq!(flat.nocturnal_mas, 180 * DEG);
    let tilted = dnarcs(30 * DEG);
    assert_eq!(tilted.diurnal_mas, 240 * DEG);
    assert_eq!(tilted.nocturnal_mas, 120 * DEG);
    let sunk = dnarcs(-30 * DEG);
    assert_eq!(sunk.diurnal_mas, 120 * DEG);
    assert_eq!(sunk.diurnal_mas + sunk.nocturnal_mas, 360 * DEG);
}

#[test]
fn above_horizon_tolerance_boundary() {
    // With a flat semi-arc of 90 degrees, a distance of exactly
    // 90 degrees + 0.0003 is still above; 90 degrees + 0.0004 is not.
    assert!(is_above_horizon(90 * DEG + 1_080, 0, 0));
    assert!(!is_above_horizon(90 * DEG + 1_440, 0, 0));
}

#[test]
fn above_horizon_uses_diurnal_semi_arc() {
    // An ascensional difference of 30 degrees stretches the semi-arc
    // to 120 degrees.
    assert!(is_above_horizon(119 * DEG, 0, 30 * DEG));
    assert!(!is_above_horizon(121 * DEG, 0, 30 * DEG));
    // And shrinks it to 60 for the opposite tilt.
    assert!(!is_above_horizon(61 * DEG, 0, -30 * DEG));
}

#[test]
fn initial_branch_cut_at_100_degrees() {
    let ed = 70 * DEG;
    assert_eq!(initial_right_ascension(50 * DEG, ed), ed);
    assert_eq!(initial_right_ascension(99 * DEG, ed), ed);
    assert_eq!(initial_right_ascension(100 * DEG, ed), 290 * DEG);
    assert_eq!(initial_right_ascension(150 * DEG, ed), 290 * DEG);
}

#[test]
fn node_proximity() {
    assert!(near_node(3 * DEG));
    assert!(near_node(357 * DEG));
    assert!(near_node(177 * DEG));
    assert!(near_node(183 * DEG));
    assert!(!near_node(5 * DEG));
    assert!(!near_node(90 * DEG));
    assert!(!near_node(270 * DEG));
}

#[test]
fn branch_flip_near_node_on_mismatch() {
    // Within five degrees of a node, a sine mismatch above the
    // threshold reflects the right ascension.
    let flipped = resolve_right_ascension(2 * DEG, 70 * DEG, 5_000_000, 1_000_000);
    assert_eq!(flipped, 290 * DEG);
    // A mismatch at or under the threshold keeps the branch.
    let kept = resolve_right_ascension(2 * DEG, 70 * DEG, 1_003_000, 1_000_000);
    assert_eq!(kept, 70 * DEG);
}

#[test]
fn no_branch_flip_away_from_nodes() {
    let kept = resolve_right_ascension(90 * DEG, 70 * DEG, 5_000_000, -5_000_000);
    assert_eq!(kept, 70 * DEG);
}
