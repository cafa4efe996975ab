use galangua::types::Vec2I;

#[test]
fn test_vec2i_ops() {
    assert_eq!(Vec2I::new(4, 6), &Vec2I::new(1, 2) + &Vec2I::new(3, 4));
    assert_eq!(Vec2I::new(1, 12), &Vec2I::new(10, 20) - &Vec2I::new(9, 8));
    assert_eq!(Vec2I::new(33, 69), &Vec2I::new(11, 23) * 3);
    assert_eq!(Vec2I::new(1, 45), &Vec2I::new(123, 4567) / 100);
}

#[test]
fn vec2i_division_truncates_toward_zero() {
    assert_eq!(Vec2I::new(-1, -45), &Vec2I::new(-123, -4567) / 100);
    assert_eq!(Vec2I::new(-3, 2), -&Vec2I::new(3, -2));
}
