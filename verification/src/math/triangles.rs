//! Triangles in space.
use crate::math::scalar::Scalar;
use crate::math::vector::Vector3;
use vstd::prelude::*;

verus! {

/// A triangle, by its three corners.
#[derive(Debug, Clone, Copy, PartialEq)]
pub struct Triangle<T>(pub Vector3<T>, pub Vector3<T>, pub Vector3<T>);

impl<T: Scalar> Triangle<T> {
    /// The triangle with the corners `x`, `y` and `z`.
    pub fn new(x: Vector3<T>, y: Vector3<T>, z: Vector3<T>) -> (r: Self)
        ensures
            r == Triangle(x, y, z),
    {
        Self(x, y, z)
    }

    /// The corners, each as an array of its components.
    pub fn as_array(&self) -> (r: [[T; 3]; 3])
        ensures
            r@ == seq![self.0.0, self.1.0, self.2.0],
    {
        let r = [self.0.as_array(), self.1.as_array(), self.2.as_array()];
        assert(r@ =~= seq![self.0.0, self.1.0, self.2.0]);
        r
    }
}

} // verus!
