use curling_game::components::Team;
use curling_game::constants::{
    CURL_COEFFICIENT_BITS, HOUSE_RADIUS_12_BITS, HOUSE_RADIUS_4_BITS, HOUSE_RADIUS_8_BITS,
    HOUSE_RADIUS_BUTTON_BITS, ICE_FRICTION_DECEL_BITS, STONE_HEIGHT_BITS, STONE_RADIUS_BITS,
    WEIGHT_MAX_SPEED_BITS, WEIGHT_MIN_SPEED_BITS,
};

const WEIGHT_MIN: f32 = 1.0;
const WEIGHT_MAX: f32 = 10.0;

fn v(bits: u32) -> f32 {
    f32::from_bits(bits)
}

#[test]
fn team_colors_are_distinct() {
    assert_ne!(Team::One.color(), Team::Two.color());
    let (r, g, b) = Team::One.color();
    assert_eq!((v(r.bits), v(g.bits), v(b.bits)), (0.85, 0.15, 0.15));
    let (r, g, b) = Team::Two.color();
    assert_eq!((v(r.bits), v(g.bits), v(b.bits)), (0.95, 0.85, 0.15));
}

#[test]
fn house_radii_ordering() {
    assert!(v(HOUSE_RADIUS_BUTTON_BITS) < v(HOUSE_RADIUS_4_BITS));
    assert!(v(HOUSE_RADIUS_4_BITS) < v(HOUSE_RADIUS_8_BITS));
    assert!(v(HOUSE_RADIUS_8_BITS) < v(HOUSE_RADIUS_12_BITS));
}

#[test]
fn house_radii_values() {
    assert_eq!(v(HOUSE_RADIUS_BUTTON_BITS), 0.15);
    assert_eq!(v(HOUSE_RADIUS_4_BITS), 0.610);
    assert_eq!(v(HOUSE_RADIUS_8_BITS), 1.219);
    assert_eq!(v(HOUSE_RADIUS_12_BITS), 1.829);
}

#[test]
fn weight_speed_mapping_is_monotonic() {
    let min_speed = v(WEIGHT_MIN_SPEED_BITS);
    let max_speed = v(WEIGHT_MAX_SPEED_BITS);
    let low_weight = 1.0;
    let high_weight = 10.0;
    let low_speed = min_speed + ((low_weight - 1.0) / 9.0) * (max_speed - min_speed);
    let high_speed = min_speed + ((high_weight - 1.0) / 9.0) * (max_speed - min_speed);
    assert!(high_speed > low_speed);
}

#[test]
fn weight_extremes_map_to_speed_extremes() {
    let min_speed = v(WEIGHT_MIN_SPEED_BITS);
    let max_speed = v(WEIGHT_MAX_SPEED_BITS);
    let min_mapped = min_speed + ((WEIGHT_MIN - 1.0) / 9.0) * (max_speed - min_speed);
    let max_mapped = min_speed + ((WEIGHT_MAX - 1.0) / 9.0) * (max_speed - min_speed);
    assert!((min_mapped - min_speed).abs() < 0.001);
    assert!((max_mapped - max_speed).abs() < 0.001);
}

#[test]
fn speed_values_are_reasonable() {
    let min_speed = v(WEIGHT_MIN_SPEED_BITS);
    let max_speed = v(WEIGHT_MAX_SPEED_BITS);
    assert!((1.0..=4.0).contains(&min_speed));
    assert!((2.0..=5.0).contains(&max_speed));
    assert!(max_speed > min_speed);
}

#[test]
fn friction_deceleration_is_positive() {
    let decel = v(ICE_FRICTION_DECEL_BITS);
    assert!(decel > 0.0);
    assert!((0.05..=0.3).contains(&decel));
}

#[test]
fn curl_coefficient_is_small() {
    let c = v(CURL_COEFFICIENT_BITS);
    assert!(c > 0.0);
    assert!(c < 0.1);
}

#[test]
fn stone_dimensions_are_realistic() {
    let diameter = v(STONE_RADIUS_BITS) * 2.0;
    assert!((0.25..=0.35).contains(&diameter));
    let height = v(STONE_HEIGHT_BITS);
    assert!((0.10..=0.15).contains(&height));
}
