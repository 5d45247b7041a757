//! What every object of a scene can do.
use crate::math::quaternion::{hamilton_req, hamilton_spec, Quaternion};
use crate::math::scalar::{obeys_scalar_spec, BinOp, Scalar};
use crate::math::vector::{zip_arrays, zip_req, zip_spec, Vector, Vector3};
use crate::renderer::camera::Camera;
use crate::renderer::mesh::{DrawCallView, Mesh};
use vstd::prelude::*;

verus! {

/// Anything with a position, an orientation and perhaps a mesh.
///
/// An implementation may declare that the specification functions model it.
/// The contracts below speak of modeled objects only; of others they claim
/// nothing. The default methods may be called on either kind: for an object
/// that is not modeled the caller shows that the sum, or the product, may
/// be evaluated whatever the object's position, or orientation, is.
pub trait GameObject<T: Scalar> {
    /// Whether `position_spec` and `rotation_spec` describe this object.
    open spec fn modeled(&self) -> bool {
        false
    }

    /// The object's position.
    open spec fn position_spec(&self) -> Vector3<T> {
        arbitrary()
    }

    /// The object's orientation.
    open spec fn rotation_spec(&self) -> Quaternion<T> {
        arbitrary()
    }

    /// The draw call of the object's mesh; none for an object without a mesh.
    open spec fn draw_spec(&self) -> Option<DrawCallView<T>> {
        arbitrary()
    }

    /// The mesh to draw for this object, if it has one.
    fn get_mesh(&self) -> (r: Option<Box<&dyn Mesh<T>>>)
        ensures
            self.modeled() ==> match r {
                Some(mesh) => mesh.modeled() && self.draw_spec() == Some(mesh.draw_spec()),
                None => self.draw_spec() is None,
            },
    ;

    /// The object's position.
    fn get_position(&self) -> (r: Vector3<T>)
        ensures
            self.modeled() ==> r == self.position_spec(),
    ;

    /// Moves the object to `pos`.
    fn set_position(&mut self, pos: Vector3<T>)
        ensures
            old(self).modeled() ==> final(self).modeled() && final(self).position_spec() == pos
                && final(self).rotation_spec() == old(self).rotation_spec(),
    ;

    /// Moves the object by `offset`.
    fn change_position(&mut self, offset: Vector3<T>)
        requires
            obeys_scalar_spec::<T>(),
            if old(self).modeled() {
                zip_req(BinOp::Add, old(self).position_spec()@, offset@, 3)
            } else {
                forall|position: Vector3<T>| zip_req(BinOp::Add, position@, offset@, 3)
            },
        ensures
            old(self).modeled() ==> {
                &&& final(self).modeled()
                &&& final(self).position_spec()@ == zip_spec(
                    BinOp::Add,
                    old(self).position_spec()@,
                    offset@,
                    3,
                )
                &&& final(self).rotation_spec() == old(self).rotation_spec()
            },
    {
        let position = self.get_position();
        assert(zip_req(BinOp::Add, position@, offset@, 3));
        let pos = Vector(zip_arrays(BinOp::Add, &position.0, &offset.0));
        self.set_position(pos);
    }

    /// Turns the object to the orientation `rotation`.
    fn set_rotation(&mut self, rotation: Quaternion<T>)
        ensures
            old(self).modeled() ==> final(self).modeled() && final(self).rotation_spec()
                == rotation && final(self).position_spec() == old(self).position_spec(),
    ;

    /// The object's orientation.
    fn get_rotation(&self) -> (r: Quaternion<T>)
        ensures
            self.modeled() ==> r == self.rotation_spec(),
    ;

    /// Turns the object by `offset`, applied in the object's own frame: the
    /// new orientation is the old one times `offset`.
    fn rotate(&mut self, offset: Quaternion<T>)
        requires
            obeys_scalar_spec::<T>(),
            if old(self).modeled() {
                hamilton_req(old(self).rotation_spec(), offset)
            } else {
                forall|rotation: Quaternion<T>| hamilton_req(rotation, offset)
            },
        ensures
            old(self).modeled() ==> {
                &&& final(self).modeled()
                &&& final(self).rotation_spec() == hamilton_spec(old(self).rotation_spec(), offset)
                &&& final(self).position_spec() == old(self).position_spec()
            },
    {
        let current = self.get_rotation();
        assert(hamilton_req(current, offset));
        let rotation = current.hamilton(offset);
        self.set_rotation(rotation);
    }
}

impl<T: Scalar> GameObject<T> for Camera<T> {
    open spec fn modeled(&self) -> bool {
        true
    }

    open spec fn position_spec(&self) -> Vector3<T> {
        Camera::position_spec(*self)
    }

    open spec fn rotation_spec(&self) -> Quaternion<T> {
        Camera::rotation_spec(*self)
    }

    open spec fn draw_spec(&self) -> Option<DrawCallView<T>> {
        None
    }

    /// A camera has no mesh.
    fn get_mesh(&self) -> (r: Option<Box<&dyn Mesh<T>>>)
        ensures
            r is None,
    {
        None
    }

    fn get_position(&self) -> (r: Vector3<T>) {
        Camera::get_position(self)
    }

    fn set_position(&mut self, pos: Vector3<T>) {
        Camera::set_position(self, pos)
    }

    fn set_rotation(&mut self, rotation: Quaternion<T>) {
        Camera::set_rotation(self, rotation)
    }

    fn get_rotation(&self) -> (r: Quaternion<T>) {
        Camera::get_rotation(self)
    }
}

} // verus!
