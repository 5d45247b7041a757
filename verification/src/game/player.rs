//! The player of a scene.
use crate::math::quaternion::Quaternion;
use crate::math::scalar::Scalar;
use crate::math::vector::Vector3;
use crate::renderer::camera::Camera;
use vstd::prelude::*;

verus! {

/// Whoever carries the camera of a scene.
pub trait Player<T: Scalar> {
    /// The player's camera.
    fn get_camera(&self) -> &Camera<T>;

    /// The player's camera, to change it.
    fn get_mut_camera(&mut self) -> &mut Camera<T>;

    /// Moves the player by `trans`.
    fn translate(&mut self, trans: Vector3<T>);

    /// Turns the player by `rot`.
    fn rotate(&mut self, rot: Quaternion<T>);
}

} // verus!
