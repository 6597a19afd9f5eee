use astro_engine::angle::{closest_distance, degnorm, znorm};

const DEG: i64 = 3_600_000;

#[test]
fn degnorm_identity_in_range() {
    assert_eq!(degnorm(0), 0);
    assert_eq!(degnorm(100 * DEG), 100 * DEG);
    assert_eq!(degnorm(359 * DEG), 359 * DEG);
}

#[test]
fn degnorm_wraps_positive() {
    assert_eq!(degnorm(360 * DEG), 0);
    assert_eq!(degnorm(360 * DEG + 1), 1);
    assert_eq!(degnorm(725 * DEG), 5 * DEG);
}

#[test]
fn degnorm_wraps_negative() {
    assert_eq!(degnorm(-DEG), 359 * DEG);
    assert_eq!(degnorm(-360 * DEG), 0);
    assert_eq!(degnorm(-30 * DEG), 330 * DEG);
}

#[test]
fn degnorm_idempotent_samples() {
    for l in [0, 1, 29 * DEG, 180 * DEG, 359 * DEG + 3_599_999, -7 * DEG, 1234 * DEG + 77] {
        let once = degnorm(l);
        assert_eq!(degnorm(once), once);
    }
}

#[test]
fn znorm_boundary_choice() {
    // +180 degrees stays +180; just past it wraps negative.
    assert_eq!(znorm(180 * DEG), 180 * DEG);
    assert_eq!(znorm(180 * DEG + 1), -(180 * DEG) + 1);
    assert_eq!(znorm(-180 * DEG), 180 * DEG);
    assert_eq!(znorm(-90 * DEG), -90 * DEG);
}

#[test]
fn closest_distance_signed() {
    assert_eq!(closest_distance(0, 10 * DEG), 10 * DEG);
    assert_eq!(closest_distance(10 * DEG, 0), -10 * DEG);
    assert_eq!(closest_distance(350 * DEG, 10 * DEG), 20 * DEG);
    assert_eq!(closest_distance(10 * DEG, 350 * DEG), -20 * DEG);
}

#[test]
fn closest_distance_opposition_boundary() {
    // Both directions give +180 degrees: the documented seam choice.
    assert_eq!(closest_distance(0, 180 * DEG), 180 * DEG);
    assert_eq!(closest_distance(180 * DEG, 0), 180 * DEG);
}
