use astro_engine::aspects::Aspects;
use astro_engine::bodies::{Bodies, ObjectType, COLOR_BODIE_OTHER, COLOR_BODIE_SUN};
use astro_engine::flags::{Calandar, OptionalFlag};
use astro_engine::houses::{Angle, HouseSystem, HousesResult};
use astro_engine::position::{House, Object};
use astro_engine::motion::ObjectPos;
use astro_engine::signs::{Element, Signs};
use astro_engine::Language;

const DEG: i64 = 3_600_000;

#[test]
fn sign_translations() {
    assert_eq!(Signs::Aries.text(Language::English), "Aries");
    assert_eq!(Signs::Aries.text(Language::French), "Belier");
    assert_eq!(Signs::Leo.text(Language::French), "Lio");
    assert_eq!(Signs::Pisces.text(Language::French), "Poisson");
}

#[test]
fn body_identifiers() {
    assert_eq!(Bodies::EclNut.id(), -1);
    assert_eq!(Bodies::Sun.id(), 0);
    assert_eq!(Bodies::TrueNode.id(), 11);
    assert_eq!(Bodies::SouthNode.id(), 24);
    assert_eq!(Bodies::Cupido.id(), 40);
    assert_eq!(Bodies::AsteroidAstera.id(), 10_005);
    assert_eq!(Bodies::AsteroidNessus.id(), 17_066);
}

#[test]
fn body_classification() {
    assert_eq!(Bodies::EclNut.object_type(), ObjectType::Unknown);
    assert_eq!(Bodies::Sun.object_type(), ObjectType::PlanetOrStar);
    assert_eq!(Bodies::OscuApog.object_type(), ObjectType::PlanetOrStar);
    assert_eq!(Bodies::Earth.object_type(), ObjectType::Earth);
    assert_eq!(Bodies::Chiron.object_type(), ObjectType::Fiction);
    assert_eq!(Bodies::FortunaPart.object_type(), ObjectType::Fiction);
    assert_eq!(Bodies::PlutoPickering.object_type(), ObjectType::Fiction);
    assert_eq!(Bodies::AsteroidEros.object_type(), ObjectType::Asteroid);
}

#[test]
fn body_colors() {
    assert_eq!(Bodies::Sun.object_color(), COLOR_BODIE_SUN);
    assert_eq!(Bodies::Sun.object_color(), 0xFFA300);
    assert_eq!(Bodies::Pluto.object_color(), 0xBF3A3A);
    assert_eq!(Bodies::Vesta.object_color(), COLOR_BODIE_OTHER);
    assert_eq!(Bodies::AsteroidLilith.object_color(), COLOR_BODIE_OTHER);
}

#[test]
fn body_translations() {
    assert_eq!(Bodies::TrueNode.text(Language::English), "North node");
    assert_eq!(Bodies::SouthNode.text(Language::English), "South node");
    assert_eq!(Bodies::FortunaPart.text(Language::English), "Fortuna part");
    assert_eq!(Bodies::Cupido.text(Language::English), "Cupido");
    assert_eq!(Bodies::Pluto.text(Language::French), "Pluton");
    assert_eq!(Bodies::FortunaPart.text(Language::French), "Part de fortune");
    assert_eq!(Bodies::Hades.text(Language::French), "Hades");
}

#[test]
fn south_node_queries_the_true_node() {
    assert_eq!(Bodies::SouthNode.ephemeris_body(), Bodies::TrueNode);
    assert_eq!(Bodies::Moon.ephemeris_body(), Bodies::Moon);
}

#[test]
fn aspect_angles_and_orbs() {
    assert_eq!(Aspects::Conjunction.angle(), (0, 10));
    assert_eq!(Aspects::Opposition.angle(), (180, 8));
    assert_eq!(Aspects::Semisextile.angle(), (30, 1));
}

#[test]
fn aspect_majority() {
    assert!(Aspects::Conjunction.maj());
    assert!(Aspects::Sextile.maj());
    assert!(!Aspects::Inconjunction.maj());
    assert!(!Aspects::Semisquare.maj());
}

#[test]
fn aspect_translations() {
    assert_eq!(Aspects::Trine.text(Language::English), "Trine");
    assert_eq!(Aspects::Trine.text(Language::French), "Trigone");
    assert_eq!(Aspects::Semisquare.text(Language::French), "Demi-carré");
}

#[test]
fn house_system_codes_round_trip() {
    for h in [
        HouseSystem::Campanus,
        HouseSystem::Equal,
        HouseSystem::Koch,
        HouseSystem::Placidus,
        HouseSystem::Porphyrius,
        HouseSystem::Regiomontanus,
        HouseSystem::WholeSign,
    ] {
        assert_eq!(HouseSystem::from_code(h.code()), Some(h));
    }
    assert_eq!(HouseSystem::from_code('Z'), None);
    assert_eq!(HouseSystem::Placidus.code(), 'P');
    assert_eq!(HouseSystem::Placidus.name(), "Placidus");
}

#[test]
fn flag_values() {
    assert_eq!(OptionalFlag::JplEph.value(), 1);
    assert_eq!(OptionalFlag::Speed.value(), 256);
    assert_eq!(
        OptionalFlag::AstronomicPosition.value(),
        OptionalFlag::NoAnnualAberration.value() | OptionalFlag::NoGravitanionalDeflection.value()
    );
    assert_eq!(OptionalFlag::JplHorApprox.value(), 512 * 1024);
    assert_eq!(Calandar::Julian.value(), 0);
    assert_eq!(Calandar::Gregorian.value(), 1);
}

#[test]
fn object_assembly() {
    let o = Object::new(
        Bodies::Mars,
        "Mars",
        ObjectType::PlanetOrStar,
        45 * DEG,
        DEG,
        -2_000,
    );
    assert_eq!(o.object_enum, Bodies::Mars);
    assert_eq!(o.object_name, "Mars");
    assert_eq!(o.object_pos, ObjectPos::Retrograde);
    assert_eq!(o.split.sign, Signs::Taurus);
    assert_eq!(o.split.deg, 15);
    assert_eq!(o.split.print, "15°00'00");
}

#[test]
fn house_assembly() {
    let h = House::new(1, 200 * DEG, Angle::Asc);
    assert_eq!(h.object_id, 1);
    assert_eq!(h.angle, Angle::Asc);
    assert_eq!(h.split.sign, Signs::Libra);
    assert_eq!(h.split.deg, 20);
    assert_eq!(h.split.print, "20°00'00");
}

#[test]
fn houses_answer_shape() {
    let mut cusps = vec![0i64; 13];
    cusps[0] = 200 * DEG;
    let ascmc = vec![0i64; 10];
    let hr = HousesResult::new(cusps, ascmc, 0);
    assert_eq!(hr.ascendant(), 200 * DEG);
    assert_eq!(hr.result, 0);
}

#[test]
fn element_colors() {
    assert_eq!(Element::Fire.color(), 0xFF0000);
    assert_eq!(Element::Earth.color(), 0xFFC200);
    assert_eq!(Element::Wind.color(), 0x00C42A);
    assert_eq!(Element::Water.color(), 0x0B34FF);
}
