use scene2d::math::Vector2d;

#[test]
fn add_int_vector() {
    let v1: Vector2d<i32> = Vector2d::new(5, 1);
    let v2: Vector2d<i32> = Vector2d::new(-3, 4);

    let added = v1.add(v2);
    assert_eq!(added.x, 2);
    assert_eq!(added.y, 5);
}

#[test]
fn mul_int_vector() {
    let v: Vector2d<usize> = Vector2d::new(2, 4);
    let mult = v.mul(2);
    assert_eq!(mult.x, 4);
    assert_eq!(mult.y, 8);
}

#[test]
fn sub_int_vector() {
    let v1: Vector2d<i32> = Vector2d::new(5, 1);
    let v2: Vector2d<i32> = Vector2d::new(-3, 4);

    let diff = v1.sub(v2);
    assert_eq!(diff.x, 8);
    assert_eq!(diff.y, -3);
}

#[test]
fn new_generic_vector() {
    let v: Vector2d<f32> = Vector2d::new(5.2, 1.0);
    assert_eq!(v.x, 5.2);
    assert_eq!(v.y, 1.0);
}
