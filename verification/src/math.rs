use vstd::prelude::*;

verus! {

/// A two-component vector, used throughout the crate for positions,
/// velocities, forces and the camera offset.
#[derive(Debug, PartialEq, Copy, Clone)]
pub struct Vector2d<T> {
    pub x: T,
    pub y: T,
}

impl<T> Vector2d<T> {
    pub fn new(x: T, y: T) -> (r: Vector2d<T>)
        ensures
            r.x == x,
            r.y == y,
    {
        Vector2d { x, y }
    }
}

impl Vector2d<i32> {
    /// Component-wise addition.
    pub fn add(self, other: Vector2d<i32>) -> (r: Vector2d<i32>)
        requires
            i32::MIN <= self.x + other.x <= i32::MAX,
            i32::MIN <= self.y + other.y <= i32::MAX,
        ensures
            r.x == self.x + other.x,
            r.y == self.y + other.y,
    {
        Vector2d { x: self.x + other.x, y: self.y + other.y }
    }

    /// Component-wise subtraction.
    pub fn sub(self, other: Vector2d<i32>) -> (r: Vector2d<i32>)
        requires
            i32::MIN <= self.x - other.x <= i32::MAX,
            i32::MIN <= self.y - other.y <= i32::MAX,
        ensures
            r.x == self.x - other.x,
            r.y == self.y - other.y,
    {
        Vector2d { x: self.x - other.x, y: self.y - other.y }
    }
}

impl Vector2d<usize> {
    /// Scaling by an unsigned factor.
    pub fn mul(self, rhs: usize) -> (r: Vector2d<usize>)
        requires
            self.x * rhs <= usize::MAX,
            self.y * rhs <= usize::MAX,
        ensures
            r.x == self.x * rhs,
            r.y == self.y * rhs,
    {
        Vector2d { x: self.x * rhs, y: self.y * rhs }
    }
}

} // verus!
