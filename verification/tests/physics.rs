use scene2d::physics::{intersects, BodyType, BoxShape, PhysicSystem, RigidBody};

// One fixed tick of 16 ms on a body of mass 2 adds
// 9_810_000 * 16 / (1000 * 2) = 78_480 micro-units/s of vertical velocity.
const DV_PER_TICK: i64 = 78_480;

#[test]
fn gravity_formula_one_tick() {
    let ps = PhysicSystem {};
    let mut bodies = vec![RigidBody::new(0, 0, 10, 10, BodyType::Dynamic)];
    let pairs = ps.update(&mut bodies, 16);
    assert_eq!(bodies[0].velocity.y, DV_PER_TICK);
    assert_eq!(bodies[0].velocity.x, 0);
    // moved by 78_480 * 16 / 1000 = 1255 micro-units
    assert_eq!(bodies[0].position.y, 1255);
    assert_eq!(bodies[0].position.x, 0);
    assert!(pairs.is_empty());
}

#[test]
fn gravity_formula_n_ticks() {
    let ps = PhysicSystem {};
    let mut bodies = vec![RigidBody::new(0, 0, 10, 10, BodyType::Dynamic)];
    for _ in 0..3 {
        ps.update(&mut bodies, 16);
    }
    // velocity after n ticks is exactly n times the per-tick gain
    assert_eq!(bodies[0].velocity.y, 3 * DV_PER_TICK);
    // positions accumulate the truncated per-tick travel:
    // 1255 + 2511 + 3767
    assert_eq!(bodies[0].position.y, 7533);
}

#[test]
fn static_bodies_never_move() {
    let ps = PhysicSystem {};
    let the_static = RigidBody::new(5_000_000, 5_000_000, 10, 10, BodyType::Static);
    let overlapping_dynamic = RigidBody::new(5_000_000, 5_000_000, 10, 10, BodyType::Dynamic);
    let mut bodies = vec![the_static, overlapping_dynamic];
    for _ in 0..10 {
        ps.update(&mut bodies, 16);
    }
    assert_eq!(bodies[0].position, the_static.position);
    assert_eq!(bodies[0].velocity, the_static.velocity);
    assert_eq!(bodies[0].force, the_static.force);
    assert_eq!(bodies[0], the_static);
    // ... while the overlapping dynamic body did move
    assert_ne!(bodies[1].position, overlapping_dynamic.position);
}

#[test]
fn overlapping_boxes_are_reported() {
    // boxes [0,0,10,10] and [5,5,10,10] in world units
    let a = RigidBody::new(0, 0, 10, 10, BodyType::Static);
    let b = RigidBody::new(5_000_000, 5_000_000, 10, 10, BodyType::Static);
    assert!(intersects(&a, &b));
    assert!(intersects(&b, &a));

    let ps = PhysicSystem {};
    let mut bodies = vec![a, b];
    let pairs = ps.update(&mut bodies, 16);
    assert_eq!(pairs, vec![(0, 1)]);
}

#[test]
fn disjoint_boxes_are_not_reported() {
    // boxes [0,0,10,10] and [20,20,10,10] in world units
    let a = RigidBody::new(0, 0, 10, 10, BodyType::Static);
    let b = RigidBody::new(20_000_000, 20_000_000, 10, 10, BodyType::Static);
    assert!(!intersects(&a, &b));

    let ps = PhysicSystem {};
    let mut bodies = vec![a, b];
    let pairs = ps.update(&mut bodies, 16);
    assert!(pairs.is_empty());
}

#[test]
fn touching_edges_do_not_intersect() {
    let a = RigidBody::new(0, 0, 10, 10, BodyType::Static);
    let b = RigidBody::new(10_000_000, 0, 10, 10, BodyType::Static);
    assert!(!intersects(&a, &b));
}

#[test]
fn empty_and_single_body_lists() {
    let ps = PhysicSystem {};
    let mut none: Vec<RigidBody> = Vec::new();
    assert!(ps.update(&mut none, 16).is_empty());
    assert!(none.is_empty());

    let mut one = vec![RigidBody::new(0, 0, 10, 10, BodyType::Static)];
    assert!(ps.update(&mut one, 16).is_empty());
    assert_eq!(one.len(), 1);
}

#[test]
fn pairs_come_in_ascending_order() {
    let ps = PhysicSystem {};
    // three mutually overlapping boxes
    let mut bodies = vec![
        RigidBody::new(0, 0, 10, 10, BodyType::Static),
        RigidBody::new(1_000_000, 1_000_000, 10, 10, BodyType::Static),
        RigidBody::new(2_000_000, 2_000_000, 10, 10, BodyType::Static),
    ];
    let pairs = ps.update(&mut bodies, 16);
    assert_eq!(pairs, vec![(0, 1), (0, 2), (1, 2)]);
}

#[test]
fn box_shape_keeps_its_fields() {
    let s = BoxShape::new(7, 9, 3);
    assert_eq!(s.w, 7);
    assert_eq!(s.h, 9);
    assert_eq!(s.m, 3);
}
