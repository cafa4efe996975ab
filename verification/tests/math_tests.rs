use galangua::math::{atan2_lut, calc_velocity, clamp, diff_angle, normalize_angle, quantize_angle, round_vec, ANGLE, ONE};
use galangua::types::Vec2I;

#[test]
fn velocity_points_up_at_angle_zero_and_right_at_a_quarter_turn() {
    assert_eq!(Vec2I::new(0, -256), calc_velocity(0, 256));
    assert_eq!(Vec2I::new(256, 0), calc_velocity(ANGLE * ONE / 4, 256));
    assert_eq!(Vec2I::new(0, 256), calc_velocity(ANGLE * ONE / 2, 256));
}

#[test]
fn atan2_measures_from_the_y_axis() {
    assert_eq!(0, atan2_lut(1, 0));
    assert_eq!(ANGLE * ONE / 4, atan2_lut(0, 1));
    assert_eq!(ANGLE * ONE / 2, atan2_lut(-1, 0));
    assert_eq!(-ANGLE * ONE / 4, atan2_lut(0, -1));
    assert_eq!(0, atan2_lut(0, 0));
}

#[test]
fn clamp_limits_both_ways() {
    assert_eq!(3, clamp(5, 0, 3));
    assert_eq!(0, clamp(-5, 0, 3));
    assert_eq!(2, clamp(2, 0, 3));
}

#[test]
fn angles_normalize_within_one_turn() {
    assert_eq!(65535, normalize_angle(-1));
    assert_eq!(5, normalize_angle(65536 + 5));
    assert_eq!(normalize_angle(normalize_angle(-12345)), normalize_angle(-12345));
    assert_eq!(10, diff_angle(10, 65536));
    assert_eq!(-10, diff_angle(65526, 0));
}

#[test]
fn quantize_and_round() {
    assert_eq!(0, quantize_angle(0, 24));
    assert_eq!(64, quantize_angle(ANGLE * ONE / 4, 24));
    assert_eq!(Vec2I::new(1, 0), round_vec(&Vec2I::new(128, 127)));
}
