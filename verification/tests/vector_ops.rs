use orbit_core::vector::Vector2d;

#[test]
fn new_carries_components() {
    let v = Vector2d::new(4i64, -3i64);
    assert_eq!(v.x, 4);
    assert_eq!(v.y, -3);
}

#[test]
fn new_carries_fractional_components() {
    // The eccentricity vector of the orbital model is carried in the same
    // generic type with fractional components.
    let e = Vector2d::new(0.4f64, 0.3f64);
    assert_eq!(e.x, 0.4);
    assert_eq!(e.y, 0.3);
}

#[test]
fn add_combines_componentwise() {
    let v = Vector2d::new(4i64, 3i64);
    let w = Vector2d::new(-2i64, 5i64);
    let s = v.add(w);
    assert_eq!(s.x, 2);
    assert_eq!(s.y, 8);
}

#[test]
fn sub_combines_componentwise() {
    let v = Vector2d::new(4i64, 3i64);
    let w = Vector2d::new(-2i64, 5i64);
    let d = v.sub(w);
    assert_eq!(d.x, 6);
    assert_eq!(d.y, -2);
}

#[test]
fn mul_is_the_dot_product() {
    let v = Vector2d::new(1i64, 2i64);
    let w = Vector2d::new(3i64, 4i64);
    assert_eq!(v.mul(w), 11);
}

#[test]
fn mul_with_itself_is_the_squared_magnitude() {
    let e = Vector2d::new(4i64, 3i64);
    assert_eq!(e.mul(e), 25);
    let f = Vector2d::new(-4i64, -3i64);
    assert_eq!(f.mul(f), 25);
}

#[test]
fn div_divides_each_component() {
    let v = Vector2d::new(8i64, -6i64);
    let h = v.div(2);
    assert_eq!(h.x, 4);
    assert_eq!(h.y, -3);
}

#[test]
fn div_rounds_toward_zero() {
    let v = Vector2d::new(-7i64, 7i64);
    let h = v.div(2);
    assert_eq!(h.x, -3);
    assert_eq!(h.y, 3);
    let n = Vector2d::new(7i64, -7i64);
    let k = n.div(-2);
    assert_eq!(k.x, -3);
    assert_eq!(k.y, 3);
}
