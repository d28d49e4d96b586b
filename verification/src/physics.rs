use vstd::prelude::*;

use crate::math::Vector2d;

verus! {

use vstd::arithmetic::div_mod::lemma_div_pos_is_pos;
use vstd::arithmetic::mul::lemma_mul_nonnegative;

/// World coordinates are stored in fixed-point micro-units: one world unit
/// is `MICROS_PER_UNIT` micro-units.  Velocities are micro-units per second.
pub const MICROS_PER_UNIT: i64 = 1_000_000;

/// Gravitational acceleration, 9.81 world units per second squared,
/// expressed in micro-units per second squared.
pub const GRAVITY_MICROS: i64 = 9_810_000;

/// Milliseconds per second, the divisor of every `dt` conversion.
pub const MILLIS_PER_SECOND: i64 = 1000;

/// Positions are kept within this bound (in micro-units) so that the
/// integrator and the intersection test never overflow an `i64`.
pub const POSITION_LIMIT: i64 = 4_000_000_000_000_000;

/// Velocities are kept within this bound (in micro-units per second).
pub const VELOCITY_LIMIT: i64 = 1_000_000_000_000;

/// Largest time delta, in milliseconds, that one integration step accepts.
pub const MAX_TICK_MS: u32 = 60_000;

/// An axis-aligned box anchored at a body's position (top-left origin,
/// growing right and down), together with the body's mass.
#[derive(Debug, Copy, Clone, PartialEq)]
pub struct BoxShape {
    // dimension, in world units
    pub w: u32,
    pub h: u32,
    // mass; must stay positive, it divides the gravity term
    pub m: u32,
}

impl BoxShape {
    /// A zero mass would make the gravity step divide by zero, so it is
    /// rejected here, at construction time.
    pub fn new(w: u32, h: u32, m: u32) -> (r: BoxShape)
        requires
            m >= 1,
        ensures
            r.w == w,
            r.h == h,
            r.m == m,
    {
        BoxShape { w, h, m }
    }
}

#[derive(Debug, PartialEq, Copy, Clone)]
pub enum BodyType {
    Static,
    Dynamic,
}

#[derive(Debug, Copy, Clone, PartialEq)]
pub struct RigidBody {
    /// Top-left corner of the box, in micro-units.
    pub position: Vector2d<i64>,
    /// Micro-units per second.
    pub velocity: Vector2d<i64>,
    pub shape: BoxShape,

    pub body_type: BodyType,
    // Forces applied to the component.  Accumulated forces are not yet an
    // acceleration source: gravity is the only one the integrator applies.
    pub force: Vector2d<i64>,
}

/// The invariant every body must satisfy before it is handed to the
/// integrator: positive mass, bounded coordinates, and a static body
/// carries no velocity and no force.
pub open spec fn valid_body(b: RigidBody) -> bool {
    &&& b.shape.m >= 1
    &&& -POSITION_LIMIT <= b.position.x <= POSITION_LIMIT
    &&& -POSITION_LIMIT <= b.position.y <= POSITION_LIMIT
    &&& -VELOCITY_LIMIT <= b.velocity.x <= VELOCITY_LIMIT
    &&& -VELOCITY_LIMIT <= b.velocity.y <= VELOCITY_LIMIT
    &&& b.body_type is Static ==> b.velocity.x == 0 && b.velocity.y == 0 && b.force.x == 0
        && b.force.y == 0
}

/// Clamping to a symmetric range, the saturation used by the integrator.
pub open spec fn clamp_to(v: int, lim: int) -> int {
    if v < -lim {
        -lim
    } else if v > lim {
        lim
    } else {
        v
    }
}

/// The velocity gained in one step by a dynamic body of mass `m` over `dt`
/// milliseconds: `9.81 / m`, scaled by `dt / 1000`, in micro-units.
pub open spec fn gravity_dv(m: int, dt: int) -> int {
    (GRAVITY_MICROS * dt) / (MILLIS_PER_SECOND as int * m)
}

/// Distance covered in `dt` milliseconds at velocity `v` (micro-units per
/// second), truncated toward zero.
pub open spec fn travel(v: int, dt: int) -> int {
    if v >= 0 {
        (v * dt) / (MILLIS_PER_SECOND as int)
    } else {
        -((-v * dt) / (MILLIS_PER_SECOND as int))
    }
}

/// One integration step of a single body: a dynamic body gains gravity on
/// its vertical velocity and moves by the new velocity; a static body is
/// untouched.  Horizontal motion has no acceleration source yet.
pub open spec fn step_body(b: RigidBody, dt: int) -> RigidBody {
    if b.body_type is Dynamic {
        let v = clamp_to(b.velocity.y + gravity_dv(b.shape.m as int, dt), VELOCITY_LIMIT as int);
        let p = clamp_to(b.position.y + travel(v, dt), POSITION_LIMIT as int);
        RigidBody {
            position: Vector2d { x: b.position.x, y: p as i64 },
            velocity: Vector2d { x: b.velocity.x, y: v as i64 },
            shape: b.shape,
            body_type: b.body_type,
            force: b.force,
        }
    } else {
        b
    }
}

/// `n` successive integration steps of one body.
pub open spec fn step_body_n(b: RigidBody, dt: int, n: nat) -> RigidBody
    decreases n,
{
    if n == 0 {
        b
    } else {
        step_body(step_body_n(b, dt, (n - 1) as nat), dt)
    }
}

/// Strict axis-aligned bounding-box overlap of two bodies, in micro-units;
/// touching edges do not count, and a box of zero width or height overlaps
/// nothing.
pub open spec fn boxes_intersect(a: RigidBody, b: RigidBody) -> bool {
    &&& a.position.x < b.position.x + b.shape.w * MICROS_PER_UNIT
    &&& b.position.x < a.position.x + a.shape.w * MICROS_PER_UNIT
    &&& a.position.y < b.position.y + b.shape.h * MICROS_PER_UNIT
    &&& b.position.y < a.position.y + a.shape.h * MICROS_PER_UNIT
}

impl RigidBody {
    /// A fresh body at rest at `(x, y)` micro-units, with the default mass.
    pub fn new(x: i64, y: i64, w: u32, h: u32, body_type: BodyType) -> (r: RigidBody)
        requires
            -POSITION_LIMIT <= x <= POSITION_LIMIT,
            -POSITION_LIMIT <= y <= POSITION_LIMIT,
        ensures
            r == (RigidBody {
                position: Vector2d { x, y },
                velocity: Vector2d { x: 0i64, y: 0i64 },
                shape: BoxShape { w, h, m: 2u32 },
                body_type,
                force: Vector2d { x: 0i64, y: 0i64 },
            }),
            valid_body(r),
    {
        let position = Vector2d::new(x, y);
        let shape = BoxShape::new(w, h, 2);
        let velocity = Vector2d::new(0i64, 0i64);
        let force = Vector2d::new(0i64, 0i64);

        RigidBody { position, velocity, body_type, shape, force }
    }
}

fn clamp_i64(v: i64, lim: i64) -> (r: i64)
    requires
        0 <= lim,
    ensures
        r == clamp_to(v as int, lim as int),
{
    if v < -lim {
        -lim
    } else if v > lim {
        lim
    } else {
        v
    }
}

/// Exact axis-aligned overlap test matching `boxes_intersect`.
pub fn intersects(a: &RigidBody, b: &RigidBody) -> (r: bool)
    requires
        valid_body(*a),
        valid_body(*b),
    ensures
        r == boxes_intersect(*a, *b),
{
    a.position.x < b.position.x + (b.shape.w as i64) * MICROS_PER_UNIT
        && b.position.x < a.position.x + (a.shape.w as i64) * MICROS_PER_UNIT
        && a.position.y < b.position.y + (b.shape.h as i64) * MICROS_PER_UNIT
        && b.position.y < a.position.y + (a.shape.h as i64) * MICROS_PER_UNIT
}

pub struct PhysicSystem {}

impl PhysicSystem {
    /// Advances every dynamic body by `dt` milliseconds and reports every
    /// unordered pair of bodies whose boxes overlap afterwards, as index
    /// pairs `(i, j)` with `i < j` in ascending lexicographic order.
    /// Detection is the whole contract: no correction is applied to the
    /// overlapping pairs, resolution is a deliberate extension point.
    pub fn update(&self, bodies: &mut Vec<RigidBody>, dt: u32) -> (pairs: Vec<(usize, usize)>)
        requires
            dt <= MAX_TICK_MS,
            forall|i: int|
                0 <= i < old(bodies)@.len() ==> valid_body(#[trigger] old(bodies)@[i]),
        ensures
            final(bodies)@.len() == old(bodies)@.len(),
            forall|i: int|
                0 <= i < old(bodies)@.len() ==> final(bodies)@[i] == step_body(
                    #[trigger] old(bodies)@[i],
                    dt as int,
                ),
            forall|i: int|
                0 <= i < final(bodies)@.len() ==> valid_body(#[trigger] final(bodies)@[i]),
            forall|k: int|
                0 <= k < pairs@.len() ==> {
                    &&& 0 <= (#[trigger] pairs@[k]).0 < pairs@[k].1 < final(bodies)@.len()
                    &&& boxes_intersect(
                        final(bodies)@[pairs@[k].0 as int],
                        final(bodies)@[pairs@[k].1 as int],
                    )
                },
            forall|i: int, j: int|
                0 <= i < j < final(bodies)@.len() && boxes_intersect(
                    final(bodies)@[i],
                    final(bodies)@[j],
                ) ==> pairs@.contains((i as usize, j as usize)),
            forall|k1: int, k2: int|
                0 <= k1 < k2 < pairs@.len() ==> lex_before(pairs@[k1], pairs@[k2]),
    {
        let n = bodies.len();

        let mut updated: Vec<RigidBody> = Vec::new();
        let mut idx: usize = 0;
        while idx < n
            invariant
                n == bodies@.len(),
                idx <= n,
                updated@.len() == idx,
                forall|i: int| 0 <= i < n ==> valid_body(#[trigger] bodies@[i]),
                dt <= MAX_TICK_MS,
                forall|i: int|
                    0 <= i < idx ==> updated@[i] == step_body(#[trigger] bodies@[i], dt as int),
                forall|i: int| 0 <= i < idx ==> valid_body(#[trigger] updated@[i]),
            decreases n - idx,
        {
            let b = bodies[idx];
            let stepped = step_one(&b, dt);
            updated.push(stepped);
            idx = idx + 1;
        }
        *bodies = updated;

        // quick and dirty collision: every unordered pair, O(n^2).
        let mut pairs: Vec<(usize, usize)> = Vec::new();
        let mut i: usize = 0;
        while i < n
            invariant
                n == bodies@.len(),
                i <= n,
                forall|t: int| 0 <= t < n ==> valid_body(#[trigger] bodies@[t]),
                forall|k: int|
                    0 <= k < pairs@.len() ==> {
                        &&& 0 <= (#[trigger] pairs@[k]).0 < pairs@[k].1 < n
                        &&& pairs@[k].0 < i
                        &&& boxes_intersect(
                            bodies@[pairs@[k].0 as int],
                            bodies@[pairs@[k].1 as int],
                        )
                    },
                forall|a: int, b: int|
                    0 <= a < b < n && a < i && boxes_intersect(bodies@[a], bodies@[b])
                        ==> pairs@.contains((a as usize, b as usize)),
                forall|k1: int, k2: int|
                    0 <= k1 < k2 < pairs@.len() ==> lex_before(pairs@[k1], pairs@[k2]),
            decreases n - i,
        {
            let mut j: usize = i + 1;
            while j < n
                invariant
                    n == bodies@.len(),
                    i < j || (j == i + 1),
                    i < n,
                    i + 1 <= j <= n,
                    forall|t: int| 0 <= t < n ==> valid_body(#[trigger] bodies@[t]),
                    forall|k: int|
                        0 <= k < pairs@.len() ==> {
                            &&& 0 <= (#[trigger] pairs@[k]).0 < pairs@[k].1 < n
                            &&& (pairs@[k].0 < i || (pairs@[k].0 == i && pairs@[k].1 < j))
                            &&& boxes_intersect(
                                bodies@[pairs@[k].0 as int],
                                bodies@[pairs@[k].1 as int],
                            )
                        },
                    forall|a: int, b: int|
                        0 <= a < b < n && (a < i || (a == i && b < j)) && boxes_intersect(
                            bodies@[a],
                            bodies@[b],
                        ) ==> pairs@.contains((a as usize, b as usize)),
                    forall|k1: int, k2: int|
                        0 <= k1 < k2 < pairs@.len() ==> lex_before(pairs@[k1], pairs@[k2]),
                decreases n - j,
            {
                if intersects(&bodies[i], &bodies[j]) {
                    let ghost prev = pairs@;
                    pairs.push((i, j));
                    proof {
                        assert(pairs@ == prev.push((i, j)));
                        assert forall|a: int, b: int|
                            0 <= a < b < n && (a < i || (a == i && b < j + 1)) && boxes_intersect(
                                bodies@[a],
                                bodies@[b],
                            ) implies pairs@.contains((a as usize, b as usize)) by {
                            if a < i || (a == i && b < j) {
                                let k = choose|k: int|
                                    0 <= k < prev.len() && prev[k] == (a as usize, b as usize);
                                assert(pairs@[k] == (a as usize, b as usize));
                            } else {
                                assert(pairs@[prev.len() as int] == (a as usize, b as usize));
                            }
                        }
                    }
                }
                j = j + 1;
            }
            i = i + 1;
        }
        pairs
    }
}

/// Ascending lexicographic order on index pairs.
pub open spec fn lex_before(a: (usize, usize), b: (usize, usize)) -> bool {
    a.0 < b.0 || (a.0 == b.0 && a.1 < b.1)
}

/// Distance covered in `dt` milliseconds at velocity `v`, the executable
/// mirror of `travel`.
fn scaled_travel(v: i64, dt: u32) -> (r: i64)
    requires
        -VELOCITY_LIMIT <= v <= VELOCITY_LIMIT,
        dt <= MAX_TICK_MS,
    ensures
        r == travel(v as int, dt as int),
        -VELOCITY_LIMIT * MAX_TICK_MS <= r <= VELOCITY_LIMIT * MAX_TICK_MS,
{
    if v >= 0 {
        proof {
            assert((v as int) * (dt as int) <= (VELOCITY_LIMIT as int) * (MAX_TICK_MS as int))
                by (nonlinear_arith)
                requires
                    0 <= v as int <= VELOCITY_LIMIT as int,
                    0 <= dt as int <= MAX_TICK_MS as int,
            ;
        }
        let q: u64 = ((v as u64) * (dt as u64)) / (MILLIS_PER_SECOND as u64);
        q as i64
    } else {
        let m: i64 = -v;
        proof {
            assert((m as int) * (dt as int) <= (VELOCITY_LIMIT as int) * (MAX_TICK_MS as int))
                by (nonlinear_arith)
                requires
                    0 <= m as int <= VELOCITY_LIMIT as int,
                    0 <= dt as int <= MAX_TICK_MS as int,
            ;
        }
        let q: u64 = ((m as u64) * (dt as u64)) / (MILLIS_PER_SECOND as u64);
        -(q as i64)
    }
}

/// One integration step of one body, the executable mirror of `step_body`.
fn step_one(b: &RigidBody, dt: u32) -> (r: RigidBody)
    requires
        valid_body(*b),
        dt <= MAX_TICK_MS,
    ensures
        r == step_body(*b, dt as int),
        valid_body(r),
{
    match b.body_type {
        BodyType::Static => *b,
        BodyType::Dynamic => {
            // ma = f; gravity is the only force applied so far.
            let num: u64 = (GRAVITY_MICROS as u64) * (dt as u64);
            let den: u64 = (MILLIS_PER_SECOND as u64) * (b.shape.m as u64);
            let dv: i64 = (num / den) as i64;
            assert(dv == gravity_dv(b.shape.m as int, dt as int));
            let v: i64 = clamp_i64(b.velocity.y + dv, VELOCITY_LIMIT);

            let moved: i64 = scaled_travel(v, dt);
            let p: i64 = clamp_i64(b.position.y + moved, POSITION_LIMIT);

            RigidBody {
                position: Vector2d { x: b.position.x, y: p },
                velocity: Vector2d { x: b.velocity.x, y: v },
                shape: b.shape,
                body_type: b.body_type,
                force: b.force,
            }
        },
    }
}

/// A dynamic body that starts at rest gains exactly `gravity_dv` of
/// vertical velocity per step: after `n` steps of size `dt` its velocity is
/// `n * (9.81 / m) * dt / 1000`, in micro-units, as long as that stays
/// within `VELOCITY_LIMIT`.  Horizontal velocity stays zero.
pub proof fn lemma_dynamic_velocity_after_ticks(b: RigidBody, dt: int, n: nat)
    requires
        b.body_type is Dynamic,
        b.shape.m >= 1,
        b.velocity.y == 0,
        0 <= dt,
        n * gravity_dv(b.shape.m as int, dt) <= VELOCITY_LIMIT,
    ensures
        step_body_n(b, dt, n).velocity.y == n * gravity_dv(b.shape.m as int, dt),
        step_body_n(b, dt, n).velocity.x == b.velocity.x,
        step_body_n(b, dt, n).shape == b.shape,
        step_body_n(b, dt, n).body_type is Dynamic,
    decreases n,
{
    let m = b.shape.m as int;
    let dv = gravity_dv(m, dt);
    lemma_mul_nonnegative(GRAVITY_MICROS as int, dt);
    lemma_div_pos_is_pos(GRAVITY_MICROS as int * dt, MILLIS_PER_SECOND as int * m);
    assert(dv >= 0);
    if n == 0 {
    } else {
        let k = (n - 1) as nat;
        assert(k * dv <= n * dv && 0 <= k * dv && k * dv + dv == n * dv) by (nonlinear_arith)
            requires
                0 <= dv,
                k == n - 1,
                0 <= k,
        ;
        lemma_dynamic_velocity_after_ticks(b, dt, k);
        let prev = step_body_n(b, dt, k);
        assert(step_body_n(b, dt, n) == step_body(prev, dt));
        assert(clamp_to(prev.velocity.y + dv, VELOCITY_LIMIT as int) == n * dv);
    }
}

/// A static body is bit-identical after any number of integration steps,
/// whatever the time delta.
pub proof fn lemma_static_body_untouched(b: RigidBody, dt: int, n: nat)
    requires
        b.body_type is Static,
    ensures
        step_body_n(b, dt, n) == b,
    decreases n,
{
    if n > 0 {
        lemma_static_body_untouched(b, dt, (n - 1) as nat);
    }
}

} // verus!
