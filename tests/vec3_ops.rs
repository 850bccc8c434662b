use vecs::Vec3;

#[test]
fn vec3_dot_example() {
    assert_eq!(14, Vec3::new(1, 2, 3).dot(Vec3::new(1, 2, 3)));
}

#[test]
fn vec3_dot_commutes() {
    let a = Vec3::new(3, -7, 2);
    let b = Vec3::new(-4, 11, 5);
    assert_eq!(a.dot(b), b.dot(a));
    assert_eq!(-79, a.dot(b));
}

#[test]
fn vec3_cross_example() {
    assert_eq!(Vec3::new(4, -8, 4), Vec3::new(3, 2, 1).cross(Vec3::new(1, 2, 3)));
    assert_eq!(Vec3::new(27, 19, -24), Vec3::new(2, 6, 7).cross(Vec3::new(5, 3, 8)));
}

#[test]
fn vec3_cross_anticommutes() {
    let a = Vec3::new(3, 6, 8);
    let b = Vec3::new(9, 4, 7);
    assert_eq!(a.cross(b), -b.cross(a));
}

#[test]
fn vec3_cross_unit_axes() {
    let i = Vec3::new(1, 0, 0);
    let j = Vec3::new(0, 1, 0);
    assert_eq!(Vec3::new(0, 0, 1), i.cross(j));
}

#[test]
fn vec3_add_zero() {
    let a = Vec3::new(-8, 13, 2);
    assert_eq!(a, a + Vec3::new(0, 0, 0));
}

#[test]
fn vec3_sub_self() {
    let a = Vec3::new(-8, 13, 2);
    assert_eq!(Vec3::new(0, 0, 0), a - a);
}

#[test]
fn vec3_length_squared_value() {
    assert_eq!(300, Vec3::new(10, 10, 10).length_squared());
}

#[test]
fn vec3_length_squared_scales() {
    let a = Vec3::new(1, -2, 2);
    assert_eq!(a.length_squared() * 9, (3 * a).length_squared());
}

#[test]
fn vec3_abs_value() {
    assert_eq!(Vec3::new(12, 15, 9), Vec3::new(-12, 15, -9).abs());
}

#[test]
fn vec3_getters() {
    let v = Vec3::new(15, 7, -1);
    assert_eq!(15, v.x());
    assert_eq!(7, v.y());
    assert_eq!(-1, v.z());
}

#[test]
fn vec3_set_replaces() {
    let mut v = Vec3::new(9, 7, 1);
    v.set(5, 0, 8);
    assert_eq!(Vec3::new(5, 0, 8), v);
}

#[test]
fn vec3_assign_variants() {
    let mut v = Vec3::new(1, 2, 3);
    v.add_assign(Vec3::new(10, 20, 30));
    assert_eq!(Vec3::new(11, 22, 33), v);
    v.sub_assign(Vec3::new(1, 1, 40));
    assert_eq!(Vec3::new(10, 21, -7), v);
}

#[test]
fn vec3_scalar_products() {
    assert_eq!(Vec3::new(6, -9, 0), Vec3::new(2, -3, 0) * 3);
    assert_eq!(Vec3::new(6, -9, 0), 3 * Vec3::new(2, -3, 0));
    assert_eq!(Vec3::new(-8, 15, 0), Vec3::new(2, -3, 7) * Vec3::new(-4, -5, 0));
}

#[test]
fn vec3_division_rounds_toward_zero() {
    assert_eq!(Vec3::new(-3, 3, 0), Vec3::new(-7, 7, 1) / 2);
    assert_eq!(Vec3::new(-2, 4, 1), Vec3::new(-7, 9, 5) / Vec3::new(3, 2, 5));
    assert_eq!(Vec3::new(5, -2, 0), 10 / Vec3::new(2, -4, 11));
}

#[test]
fn vec3_negation() {
    assert_eq!(Vec3::new(-2, 3, 0), -Vec3::new(2, -3, 0));
}

#[test]
fn vec3_text_form() {
    assert_eq!("(27, 19, -24)", Vec3::new(27, 19, -24).to_string());
    assert_eq!("(0, 100, -7)", Vec3::new(0, 100, -7).to_string());
}

#[test]
fn vec3_inequality_per_component() {
    assert_ne!(Vec3::new(1, 2, 3), Vec3::new(1, 2, 4));
    assert_ne!(Vec3::new(1, 2, 3), Vec3::new(0, 2, 3));
    assert_ne!(Vec3::new(1, 2, 3), Vec3::new(1, 9, 3));
}
