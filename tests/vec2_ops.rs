use vecs::Vec2;

#[test]
fn vec2_dot_example() {
    assert_eq!(5, Vec2::new(1, 2).dot(Vec2::new(1, 2)));
}

#[test]
fn vec2_dot_commutes() {
    let a = Vec2::new(3, -7);
    let b = Vec2::new(-4, 11);
    assert_eq!(a.dot(b), b.dot(a));
    assert_eq!(-89, a.dot(b));
}

#[test]
fn vec2_add_zero() {
    let a = Vec2::new(-8, 13);
    assert_eq!(a, a + Vec2::new(0, 0));
}

#[test]
fn vec2_sub_self() {
    let a = Vec2::new(-8, 13);
    assert_eq!(Vec2::new(0, 0), a - a);
}

#[test]
fn vec2_add_literal() {
    assert_eq!(Vec2::new(5, 5), Vec2::new(2, 3) + Vec2::new(3, 2));
}

#[test]
fn vec2_sub_literal() {
    assert_eq!(Vec2::new(5, 20), Vec2::new(10, 30) - Vec2::new(5, 10));
}

#[test]
fn vec2_normal_left_perpendicular() {
    assert_eq!(Vec2::new(-9, 4), Vec2::new(4, 9).normal());
}

#[test]
fn vec2_length_squared_value() {
    assert_eq!(200, Vec2::new(10, 10).length_squared());
    assert_eq!(25, Vec2::new(-3, 4).length_squared());
}

#[test]
fn vec2_length_squared_scales() {
    let a = Vec2::new(3, -4);
    assert_eq!(a.length_squared() * 49, (a * -7).length_squared());
}

#[test]
fn vec2_abs_value() {
    assert_eq!(Vec2::new(12, 15), Vec2::new(-12, 15).abs());
}

#[test]
fn vec2_getters() {
    let v = Vec2::new(15, 7);
    assert_eq!(15, v.x());
    assert_eq!(7, v.y());
}

#[test]
fn vec2_set_replaces() {
    let mut v = Vec2::new(9, 7);
    v.set(5, 0);
    assert_eq!(Vec2::new(5, 0), v);
}

#[test]
fn vec2_add_assign_accumulates() {
    let mut v = Vec2::new(1, 2);
    v.add_assign(Vec2::new(10, -20));
    assert_eq!(Vec2::new(11, -18), v);
}

#[test]
fn vec2_sub_assign_accumulates() {
    let mut v = Vec2::new(1, 2);
    v.sub_assign(Vec2::new(10, -20));
    assert_eq!(Vec2::new(-9, 22), v);
}

#[test]
fn vec2_scalar_products() {
    assert_eq!(Vec2::new(6, -9), Vec2::new(2, -3) * 3);
    assert_eq!(Vec2::new(6, -9), 3 * Vec2::new(2, -3));
    assert_eq!(Vec2::new(-8, 15), Vec2::new(2, -3) * Vec2::new(-4, -5));
}

#[test]
fn vec2_division_rounds_toward_zero() {
    assert_eq!(Vec2::new(-3, 3), Vec2::new(-7, 7) / 2);
    assert_eq!(Vec2::new(3, -3), Vec2::new(-7, 7) / -2);
    assert_eq!(Vec2::new(-2, 4), Vec2::new(-7, 9) / Vec2::new(3, 2));
    assert_eq!(Vec2::new(5, -2), 10 / Vec2::new(2, -4));
}

#[test]
fn vec2_negation() {
    assert_eq!(Vec2::new(-2, 3), -Vec2::new(2, -3));
}

#[test]
fn vec2_text_form() {
    assert_eq!("(29, 15)", (Vec2::new(12, 6) + Vec2::new(17, 9)).to_string());
    assert_eq!("(-5, 0)", Vec2::new(-5, 0).to_string());
    assert_eq!(
        "(-9223372036854775808, 9223372036854775807)",
        Vec2::new(i64::MIN, i64::MAX).to_string()
    );
}

#[test]
fn vec2_inequality_per_component() {
    assert_ne!(Vec2::new(1, 2), Vec2::new(0, 2));
    assert_ne!(Vec2::new(1, 2), Vec2::new(1, 3));
}
