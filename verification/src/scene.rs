use vstd::prelude::*;

use crate::math::Vector2d;
use crate::physics::{
    valid_body, BodyType, BoxShape, RigidBody, MICROS_PER_UNIT, POSITION_LIMIT,
};

verus! {

/// A plain color triple; the render backend turns it into its own color type.
#[derive(Debug, Copy, Clone, PartialEq)]
pub struct Rgb {
    pub r: u8,
    pub g: u8,
    pub b: u8,
}

impl Rgb {
    pub fn new(r: u8, g: u8, b: u8) -> (c: Rgb)
        ensures
            c == (Rgb { r, g, b }),
    {
        Rgb { r, g, b }
    }
}

/// One placed rectangle: a rigid body plus its fill color.
#[derive(Debug, Copy, Clone, PartialEq)]
pub struct GameObject {
    pub body: RigidBody,

    pub color: Rgb,
}

/// Whether the world-space point `(x, y)` (in whole units) falls inside the
/// body's box; the box is half-open, containing its left and top edges but
/// not its right and bottom ones.
pub open spec fn object_contains_point(b: RigidBody, x: int, y: int) -> bool {
    &&& b.position.x <= x * MICROS_PER_UNIT < b.position.x + b.shape.w * MICROS_PER_UNIT
    &&& b.position.y <= y * MICROS_PER_UNIT < b.position.y + b.shape.h * MICROS_PER_UNIT
}

impl GameObject {
    pub fn new(x: i64, y: i64, w: u32, h: u32, r: u8, g: u8, b: u8, body_type: BodyType) -> (o:
        GameObject)
        requires
            -POSITION_LIMIT <= x <= POSITION_LIMIT,
            -POSITION_LIMIT <= y <= POSITION_LIMIT,
        ensures
            o == (GameObject {
                body: RigidBody {
                    position: Vector2d { x, y },
                    velocity: Vector2d { x: 0i64, y: 0i64 },
                    shape: BoxShape { w, h, m: 2u32 },
                    body_type,
                    force: Vector2d { x: 0i64, y: 0i64 },
                },
                color: Rgb { r, g, b },
            }),
            valid_body(o.body),
    {
        let body = RigidBody::new(x, y, w, h, body_type);
        GameObject { body, color: Rgb { r, g, b } }
    }

    /// Hit test in world space, on world-unit coordinates.
    pub fn contains_point(&self, x: i32, y: i32) -> (r: bool)
        requires
            valid_body(self.body),
        ensures
            r == object_contains_point(self.body, x as int, y as int),
    {
        let px: i64 = (x as i64) * MICROS_PER_UNIT;
        let py: i64 = (y as i64) * MICROS_PER_UNIT;
        self.body.position.x <= px && px < self.body.position.x + (self.body.shape.w as i64)
            * MICROS_PER_UNIT && self.body.position.y <= py && py < self.body.position.y
            + (self.body.shape.h as i64) * MICROS_PER_UNIT
    }

    pub fn x(&self) -> (r: i64)
        ensures
            r == self.body.position.x,
    {
        self.body.position.x
    }

    pub fn y(&self) -> (r: i64)
        ensures
            r == self.body.position.y,
    {
        self.body.position.y
    }

    pub fn w(&self) -> (r: u32)
        ensures
            r == self.body.shape.w,
    {
        self.body.shape.w
    }

    pub fn h(&self) -> (r: u32)
        ensures
            r == self.body.shape.h,
    {
        self.body.shape.h
    }
}

/// A camera is a world-space offset; rendering subtracts it from world
/// coordinates to obtain view-local coordinates.  Hit-testing works on raw
/// world coordinates and never goes through it.
#[derive(Debug, Copy, Clone, PartialEq)]
pub struct Camera {
    pub position: Vector2d<i32>,
}

impl Camera {
    pub fn new() -> (c: Camera)
        ensures
            c.position.x == 0,
            c.position.y == 0,
    {
        Camera { position: Vector2d::new(0, 0) }
    }

    /// World to view-local coordinates: `global_pos - position`.
    #[allow(non_snake_case)]
    pub fn toLocal(&self, global_pos: Vector2d<i32>) -> (r: Vector2d<i32>)
        requires
            i32::MIN <= global_pos.x - self.position.x <= i32::MAX,
            i32::MIN <= global_pos.y - self.position.y <= i32::MAX,
        ensures
            r.x == global_pos.x - self.position.x,
            r.y == global_pos.y - self.position.y,
    {
        global_pos.sub(self.position)
    }
}

/// Every body of every entity satisfies the physics invariant.
pub open spec fn valid_scene(s: Scene) -> bool {
    forall|i: int| 0 <= i < s.gameobjects@.len() ==> valid_body(#[trigger] s.gameobjects@[i].body)
}

/// `r` is the first (lowest-index) entity of `s` containing `(x, y)`, or
/// `None` when no entity does.
pub open spec fn is_first_hit(s: Seq<GameObject>, x: int, y: int, r: Option<usize>) -> bool {
    match r {
        Some(i) => {
            &&& 0 <= i < s.len()
            &&& object_contains_point(s[i as int].body, x, y)
            &&& forall|j: int| 0 <= j < i ==> !object_contains_point(#[trigger] s[j].body, x, y)
        },
        None => forall|j: int|
            0 <= j < s.len() ==> !object_contains_point(#[trigger] s[j].body, x, y),
    }
}

/// An ordered collection of entities plus one camera.  Insertion order is
/// render order (later entities draw over earlier ones) and indices are
/// stable: entities are only ever appended.
#[derive(Debug, Clone, PartialEq)]
pub struct Scene {
    pub gameobjects: Vec<GameObject>,
    pub camera: Camera,
}

impl Scene {
    pub fn new() -> (s: Scene)
        ensures
            s.gameobjects@.len() == 0,
            s.camera.position.x == 0,
            s.camera.position.y == 0,
            valid_scene(s),
    {
        Scene { gameobjects: Vec::new(), camera: Camera::new() }
    }

    /// Appends a dynamic entity; returns its stable index.
    pub fn add_rect(&mut self, x: i64, y: i64, w: u32, h: u32, color: Rgb) -> (idx: usize)
        requires
            -POSITION_LIMIT <= x <= POSITION_LIMIT,
            -POSITION_LIMIT <= y <= POSITION_LIMIT,
            old(self).gameobjects@.len() < usize::MAX,
        ensures
            idx == old(self).gameobjects@.len(),
            final(self).gameobjects@ == old(self).gameobjects@.push(
                GameObject {
                    body: RigidBody {
                        position: Vector2d { x, y },
                        velocity: Vector2d { x: 0i64, y: 0i64 },
                        shape: BoxShape { w, h, m: 2u32 },
                        body_type: BodyType::Dynamic,
                        force: Vector2d { x: 0i64, y: 0i64 },
                    },
                    color,
                },
            ),
            final(self).camera == old(self).camera,
            valid_scene(*old(self)) ==> valid_scene(*final(self)),
    {
        let idx = self.gameobjects.len();
        self.gameobjects.push(GameObject::new(x, y, w, h, color.r, color.g, color.b,
            BodyType::Dynamic));
        idx
    }

    /// Appends a static entity; returns its stable index.
    pub fn add_static(&mut self, x: i64, y: i64, w: u32, h: u32, color: Rgb) -> (idx: usize)
        requires
            -POSITION_LIMIT <= x <= POSITION_LIMIT,
            -POSITION_LIMIT <= y <= POSITION_LIMIT,
            old(self).gameobjects@.len() < usize::MAX,
        ensures
            idx == old(self).gameobjects@.len(),
            final(self).gameobjects@ == old(self).gameobjects@.push(
                GameObject {
                    body: RigidBody {
                        position: Vector2d { x, y },
                        velocity: Vector2d { x: 0i64, y: 0i64 },
                        shape: BoxShape { w, h, m: 2u32 },
                        body_type: BodyType::Static,
                        force: Vector2d { x: 0i64, y: 0i64 },
                    },
                    color,
                },
            ),
            final(self).camera == old(self).camera,
            valid_scene(*old(self)) ==> valid_scene(*final(self)),
    {
        let idx = self.gameobjects.len();
        self.gameobjects.push(GameObject::new(x, y, w, h, color.r, color.g, color.b,
            BodyType::Static));
        idx
    }

    /// The first (lowest-index) entity whose box contains the world-space
    /// point, or `None`.  First match, not topmost-drawn match, wins ties.
    pub fn hit_test(&self, x: i32, y: i32) -> (r: Option<usize>)
        requires
            valid_scene(*self),
        ensures
            is_first_hit(self.gameobjects@, x as int, y as int, r),
    {
        let n = self.gameobjects.len();
        let mut idx: usize = 0;
        while idx < n
            invariant
                n == self.gameobjects@.len(),
                idx <= n,
                valid_scene(*self),
                forall|j: int|
                    0 <= j < idx ==> !object_contains_point(
                        (#[trigger] self.gameobjects@[j]).body,
                        x as int,
                        y as int,
                    ),
            decreases n - idx,
        {
            if self.gameobjects[idx].contains_point(x, y) {
                return Some(idx);
            }
            idx = idx + 1;
        }
        None
    }

    /// The entity sequence in insertion order, oldest first; drawing in this
    /// order paints later entities over earlier ones.
    pub fn render_order(&self) -> (r: &Vec<GameObject>)
        ensures
            r@ == self.gameobjects@,
    {
        &self.gameobjects
    }

    /// A deep, independent copy: every entity and the camera are copied by
    /// value, and the copy shares no mutable state with the original.
    pub fn snapshot(&self) -> (s: Scene)
        ensures
            s.gameobjects@ == self.gameobjects@,
            s.camera == self.camera,
    {
        let n = self.gameobjects.len();
        let mut objects: Vec<GameObject> = Vec::new();
        let mut idx: usize = 0;
        while idx < n
            invariant
                n == self.gameobjects@.len(),
                idx <= n,
                objects@ == self.gameobjects@.subrange(0, idx as int),
            decreases n - idx,
        {
            objects.push(self.gameobjects[idx]);
            idx = idx + 1;
        }
        proof {
            assert(objects@ == self.gameobjects@);
        }
        Scene { gameobjects: objects, camera: self.camera }
    }
}

} // verus!
