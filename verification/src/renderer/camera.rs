//! The camera: a position, an orientation and a perspective projection that
//! is kept in step with the projection parameters.
use crate::math::matrix::{mat_vec_req, mat_vec_spec, Mat4, Matrix};
use crate::math::quaternion::{
    hamilton_req, hamilton_spec, identity_quaternion, rotation3_spec, rotation_req, Quaternion,
};
use crate::math::scalar::{dot_req, dot_spec, obeys_scalar_spec, one, zero, BinOp, Scalar};
use crate::math::vector::{
    cross_req, cross_spec, neg_seq_req, neg_seq_spec, zip_req, zip_spec, Vector, Vector3,
};
use crate::math::{minus_one, perspective, perspective_req, perspective_spec};
use core::ops::Neg;
use vstd::prelude::*;
use vstd::std_specs::convert::FromSpec;
use vstd::std_specs::ops::{DivSpec, NegSpec};

verus! {

/// The near clip plane of every camera: one tenth.
pub open spec fn near_plane<T: Scalar>() -> T {
    one::<T>().div_spec(T::from_spec(10i8))
}

/// Whether the near clip plane may be evaluated.
pub open spec fn near_plane_req<T: Scalar>() -> bool {
    one::<T>().div_req(T::from_spec(10i8))
}

/// The front direction `(0, 0, 1)`.
pub open spec fn front_spec<T: Scalar>() -> Seq<T> {
    seq![zero::<T>(), zero::<T>(), one::<T>()]
}

/// The up direction `(0, 1, 0)`.
pub open spec fn up_spec<T: Scalar>() -> Seq<T> {
    seq![zero::<T>(), one::<T>(), zero::<T>()]
}

/// The mirror `(-1, 1, -1)` applied to the camera's position in the view matrix.
pub open spec fn mirror_spec<T: Scalar>() -> Seq<T> {
    seq![minus_one::<T>(), one::<T>(), minus_one::<T>()]
}

/// The direction in which a camera with orientation `q` looks, before
/// normalization: the rotation matrix of `q` applied to the negated front.
pub open spec fn view_direction_spec<T: Scalar>(q: Quaternion<T>) -> Seq<T> {
    mat_vec_spec(rotation3_spec(q), neg_seq_spec(front_spec::<T>(), 3), 3)
}

/// Whether `view_direction_spec(q)` may be evaluated.
pub open spec fn view_direction_req<T: Scalar>(q: Quaternion<T>) -> bool {
    &&& neg_seq_req(front_spec::<T>(), 3)
    &&& rotation_req(q)
    &&& mat_vec_req(rotation3_spec(q), neg_seq_spec(front_spec::<T>(), 3), 3)
}

/// The view matrix of a camera at `position` with the unit basis vectors
/// `forward` and `right`; the third basis vector is `right x forward`.
pub open spec fn look_at_spec<T: Scalar>(position: Seq<T>, forward: Seq<T>, right: Seq<T>) -> Seq<
    Seq<T>,
> {
    let start = zip_spec(BinOp::Mul, position, mirror_spec::<T>(), 3);
    let up = cross_spec(right, forward);
    seq![
        seq![right[0], right[1], right[2], dot_spec(right, start, 3).neg_spec()],
        seq![up[0], up[1], up[2], dot_spec(up, start, 3).neg_spec()],
        seq![
            forward[0].neg_spec(),
            forward[1].neg_spec(),
            forward[2].neg_spec(),
            dot_spec(forward, start, 3),
        ],
        seq![zero::<T>(), zero::<T>(), zero::<T>(), one::<T>()],
    ]
}

/// Whether every operation of `look_at_spec` may be evaluated.
pub open spec fn look_at_req<T: Scalar>(position: Seq<T>, forward: Seq<T>, right: Seq<T>) -> bool {
    let start = zip_spec(BinOp::Mul, position, mirror_spec::<T>(), 3);
    let up = cross_spec(right, forward);
    &&& zip_req(BinOp::Mul, position, mirror_spec::<T>(), 3)
    &&& cross_req(right, forward)
    &&& dot_req(right, start, 3)
    &&& dot_req(up, start, 3)
    &&& dot_req(forward, start, 3)
    &&& dot_spec(right, start, 3).neg_req()
    &&& dot_spec(up, start, 3).neg_req()
    &&& neg_seq_req(forward, 3)
}

/// A camera. Its perspective matrix is derived from the focal scale, the
/// aspect ratio and the clip planes, and changes only together with them.
#[derive(Debug)]
pub struct Camera<T: Scalar> {
    world_position: Vector3<T>,
    rotation: Quaternion<T>,
    fov: T,
    focal_scale: T,
    aspect_ratio: T,
    near: T,
    far: T,
    perspective: Mat4<T>,
}

impl<T: Scalar> Camera<T> {
    /// The perspective matrix agrees with the projection parameters.
    #[verifier::type_invariant]
    pub closed spec fn consistent(self) -> bool {
        self.perspective@ == perspective_spec(
            self.focal_scale,
            self.aspect_ratio,
            self.near,
            self.far,
        )
    }

    /// The camera's position in the world.
    pub closed spec fn position_spec(self) -> Vector3<T> {
        self.world_position
    }

    /// The camera's orientation.
    pub closed spec fn rotation_spec(self) -> Quaternion<T> {
        self.rotation
    }

    /// The field of view, in degrees.
    pub closed spec fn fov_spec(self) -> T {
        self.fov
    }

    /// The focal scale: the cotangent of half the field of view.
    pub closed spec fn focal_scale_spec(self) -> T {
        self.focal_scale
    }

    /// The aspect ratio: width over height.
    pub closed spec fn aspect_ratio_spec(self) -> T {
        self.aspect_ratio
    }

    /// The near clip plane.
    pub closed spec fn near_spec(self) -> T {
        self.near
    }

    /// The far clip plane.
    pub closed spec fn far_spec(self) -> T {
        self.far
    }

    /// The perspective matrix, by its rows.
    pub closed spec fn perspective_view(self) -> Seq<Seq<T>> {
        self.perspective@
    }

    /// A camera at `world_position` with orientation `rotation`. `fov` is the
    /// field of view in degrees and `focal_scale` the cotangent of its half;
    /// the near clip plane is one tenth.
    pub fn new(
        world_position: Vector3<T>,
        rotation: Quaternion<T>,
        fov: T,
        focal_scale: T,
        aspect_ratio: T,
        far: T,
    ) -> (r: Self)
        requires
            obeys_scalar_spec::<T>(),
            near_plane_req::<T>(),
            perspective_req(focal_scale, aspect_ratio, near_plane::<T>(), far),
        ensures
            r.position_spec() == world_position,
            r.rotation_spec() == rotation,
            r.fov_spec() == fov,
            r.focal_scale_spec() == focal_scale,
            r.aspect_ratio_spec() == aspect_ratio,
            r.near_spec() == near_plane::<T>(),
            r.far_spec() == far,
            r.perspective_view() == perspective_spec(
                focal_scale,
                aspect_ratio,
                near_plane::<T>(),
                far,
            ),
    {
        let near = T::from(1i8) / T::from(10i8);
        Self {
            world_position,
            rotation,
            fov,
            focal_scale,
            aspect_ratio,
            near,
            far,
            perspective: perspective(focal_scale, aspect_ratio, near, far),
        }
    }

    /// Sets the aspect ratio and recomputes the perspective matrix.
    pub fn change_aspect_ratio(&mut self, aspect_ratio: T)
        requires
            obeys_scalar_spec::<T>(),
            perspective_req(
                old(self).focal_scale_spec(),
                aspect_ratio,
                old(self).near_spec(),
                old(self).far_spec(),
            ),
        ensures
            final(self).aspect_ratio_spec() == aspect_ratio,
            final(self).perspective_view() == perspective_spec(
                old(self).focal_scale_spec(),
                aspect_ratio,
                old(self).near_spec(),
                old(self).far_spec(),
            ),
            final(self).position_spec() == old(self).position_spec(),
            final(self).rotation_spec() == old(self).rotation_spec(),
            final(self).fov_spec() == old(self).fov_spec(),
            final(self).focal_scale_spec() == old(self).focal_scale_spec(),
            final(self).near_spec() == old(self).near_spec(),
            final(self).far_spec() == old(self).far_spec(),
    {
        *self = Self {
            world_position: self.world_position,
            rotation: self.rotation,
            fov: self.fov,
            focal_scale: self.focal_scale,
            aspect_ratio,
            near: self.near,
            far: self.far,
            perspective: perspective(self.focal_scale, aspect_ratio, self.near, self.far),
        };
    }

    /// Sets the field of view, with its focal scale, and recomputes the
    /// perspective matrix.
    pub fn change_fov(&mut self, fov: T, focal_scale: T)
        requires
            obeys_scalar_spec::<T>(),
            perspective_req(
                focal_scale,
                old(self).aspect_ratio_spec(),
                old(self).near_spec(),
                old(self).far_spec(),
            ),
        ensures
            final(self).fov_spec() == fov,
            final(self).focal_scale_spec() == focal_scale,
            final(self).perspective_view() == perspective_spec(
                focal_scale,
                old(self).aspect_ratio_spec(),
                old(self).near_spec(),
                old(self).far_spec(),
            ),
            final(self).position_spec() == old(self).position_spec(),
            final(self).rotation_spec() == old(self).rotation_spec(),
            final(self).aspect_ratio_spec() == old(self).aspect_ratio_spec(),
            final(self).near_spec() == old(self).near_spec(),
            final(self).far_spec() == old(self).far_spec(),
    {
        *self = Self {
            world_position: self.world_position,
            rotation: self.rotation,
            fov,
            focal_scale,
            aspect_ratio: self.aspect_ratio,
            near: self.near,
            far: self.far,
            perspective: perspective(focal_scale, self.aspect_ratio, self.near, self.far),
        };
    }

    /// The perspective matrix.
    pub fn perspective(&self) -> (r: Mat4<T>)
        ensures
            r@ == self.perspective_view(),
            r@ == perspective_spec(
                self.focal_scale_spec(),
                self.aspect_ratio_spec(),
                self.near_spec(),
                self.far_spec(),
            ),
    {
        proof {
            use_type_invariant(self);
        }
        self.perspective
    }

    /// The camera's position in the world.
    pub fn get_position(&self) -> (r: Vector3<T>)
        ensures
            r == self.position_spec(),
    {
        self.world_position
    }

    /// The camera's orientation.
    pub fn get_rotation(&self) -> (r: Quaternion<T>)
        ensures
            r == self.rotation_spec(),
    {
        self.rotation
    }

    /// The field of view, in degrees.
    pub fn fov(&self) -> (r: T)
        ensures
            r == self.fov_spec(),
    {
        self.fov
    }

    /// The aspect ratio.
    pub fn aspect_ratio(&self) -> (r: T)
        ensures
            r == self.aspect_ratio_spec(),
    {
        self.aspect_ratio
    }

    /// The near clip plane.
    pub fn near(&self) -> (r: T)
        ensures
            r == self.near_spec(),
    {
        self.near
    }

    /// The far clip plane.
    pub fn far(&self) -> (r: T)
        ensures
            r == self.far_spec(),
    {
        self.far
    }

    /// Moves the camera to `pos`.
    pub fn set_position(&mut self, pos: Vector3<T>)
        ensures
            final(self).position_spec() == pos,
            final(self).rotation_spec() == old(self).rotation_spec(),
            final(self).fov_spec() == old(self).fov_spec(),
            final(self).focal_scale_spec() == old(self).focal_scale_spec(),
            final(self).aspect_ratio_spec() == old(self).aspect_ratio_spec(),
            final(self).near_spec() == old(self).near_spec(),
            final(self).far_spec() == old(self).far_spec(),
            final(self).perspective_view() == old(self).perspective_view(),
    {
        proof {
            use_type_invariant(&*self);
        }
        *self = Self {
            world_position: pos,
            rotation: self.rotation,
            fov: self.fov,
            focal_scale: self.focal_scale,
            aspect_ratio: self.aspect_ratio,
            near: self.near,
            far: self.far,
            perspective: self.perspective,
        };
    }

    /// Moves the camera by `offset`.
    pub fn change_position(&mut self, offset: Vector3<T>)
        requires
            obeys_scalar_spec::<T>(),
            zip_req(BinOp::Add, old(self).position_spec()@, offset@, 3),
        ensures
            final(self).position_spec()@ == zip_spec(
                BinOp::Add,
                old(self).position_spec()@,
                offset@,
                3,
            ),
            final(self).rotation_spec() == old(self).rotation_spec(),
            final(self).fov_spec() == old(self).fov_spec(),
            final(self).focal_scale_spec() == old(self).focal_scale_spec(),
            final(self).aspect_ratio_spec() == old(self).aspect_ratio_spec(),
            final(self).near_spec() == old(self).near_spec(),
            final(self).far_spec() == old(self).far_spec(),
            final(self).perspective_view() == old(self).perspective_view(),
    {
        let pos = self.world_position + offset;
        self.set_position(pos);
    }

    /// Turns the camera to the orientation `rotation`.
    pub fn set_rotation(&mut self, rotation: Quaternion<T>)
        ensures
            final(self).rotation_spec() == rotation,
            final(self).position_spec() == old(self).position_spec(),
            final(self).fov_spec() == old(self).fov_spec(),
            final(self).focal_scale_spec() == old(self).focal_scale_spec(),
            final(self).aspect_ratio_spec() == old(self).aspect_ratio_spec(),
            final(self).near_spec() == old(self).near_spec(),
            final(self).far_spec() == old(self).far_spec(),
            final(self).perspective_view() == old(self).perspective_view(),
    {
        proof {
            use_type_invariant(&*self);
        }
        *self = Self {
            world_position: self.world_position,
            rotation,
            fov: self.fov,
            focal_scale: self.focal_scale,
            aspect_ratio: self.aspect_ratio,
            near: self.near,
            far: self.far,
            perspective: self.perspective,
        };
    }

    /// Turns the camera by `offset`, applied in the camera's own frame: the
    /// new orientation is the old one times `offset`.
    pub fn rotate(&mut self, offset: Quaternion<T>)
        requires
            obeys_scalar_spec::<T>(),
            hamilton_req(old(self).rotation_spec(), offset),
        ensures
            final(self).rotation_spec() == hamilton_spec(old(self).rotation_spec(), offset),
            final(self).position_spec() == old(self).position_spec(),
            final(self).fov_spec() == old(self).fov_spec(),
            final(self).focal_scale_spec() == old(self).focal_scale_spec(),
            final(self).aspect_ratio_spec() == old(self).aspect_ratio_spec(),
            final(self).near_spec() == old(self).near_spec(),
            final(self).far_spec() == old(self).far_spec(),
            final(self).perspective_view() == old(self).perspective_view(),
    {
        let rotation = self.rotation * offset;
        self.set_rotation(rotation);
    }

    /// The direction in which the camera looks, before normalization.
    pub fn view_direction(&self) -> (r: Vector3<T>)
        requires
            obeys_scalar_spec::<T>(),
            view_direction_req(self.rotation_spec()),
        ensures
            r@ == view_direction_spec(self.rotation_spec()),
    {
        let front = Vector3::<T>::front();
        assert(front@ == front_spec::<T>());
        self.rotation.to_matrix3x3() * front.neg()
    }

    /// The view matrix for the camera's position and the unit vectors
    /// `forward` and `right` of its basis. `forward` is the normalized view
    /// direction and `right` the normalized cross product of `forward` and
    /// the world's up direction; the camera's own up is `right x forward`.
    pub fn look_at(&self, forward: Vector3<T>, right: Vector3<T>) -> (r: Mat4<T>)
        requires
            obeys_scalar_spec::<T>(),
            look_at_req(self.position_spec()@, forward@, right@),
        ensures
            r@ == look_at_spec(self.position_spec()@, forward@, right@),
    {
        let mirror = Vector([T::from(-1i8), T::from(1i8), T::from(-1i8)]);
        assert(mirror@ =~= mirror_spec::<T>());
        let start = self.world_position * mirror;
        let up = right.cross(&forward);
        let o = T::from(0i8);
        let r = Matrix(
            [
                [right.0[0], right.0[1], right.0[2], right.dot(&start).neg()],
                [up.0[0], up.0[1], up.0[2], up.dot(&start).neg()],
                [
                    forward.0[0].neg(),
                    forward.0[1].neg(),
                    forward.0[2].neg(),
                    forward.dot(&start),
                ],
                [o, o, o, T::from(1i8)],
            ],
        );
        proof {
            let s = look_at_spec(self.position_spec()@, forward@, right@);
            assert(r@[0] =~= s[0]);
            assert(r@[1] =~= s[1]);
            assert(r@[2] =~= s[2]);
            assert(r@[3] =~= s[3]);
            assert(r@ =~= s);
        }
        r
    }

    /// The camera at the origin with the identity orientation, a field of
    /// view of 90 degrees (focal scale one), aspect ratio one and the far
    /// clip plane at 100.
    pub fn default() -> (r: Self)
        requires
            obeys_scalar_spec::<T>(),
            near_plane_req::<T>(),
            perspective_req(one::<T>(), one::<T>(), near_plane::<T>(), T::from_spec(100i8)),
        ensures
            r.position_spec()@ == seq![zero::<T>(), zero::<T>(), zero::<T>()],
            r.rotation_spec() == identity_quaternion::<T>(),
            r.fov_spec() == T::from_spec(90i8),
            r.focal_scale_spec() == one::<T>(),
            r.aspect_ratio_spec() == one::<T>(),
            r.near_spec() == near_plane::<T>(),
            r.far_spec() == T::from_spec(100i8),
            r.perspective_view() == perspective_spec(
                one::<T>(),
                one::<T>(),
                near_plane::<T>(),
                T::from_spec(100i8),
            ),
    {
        let o = T::from(0i8);
        let origin = Vector([o, o, o]);
        assert(origin@ =~= seq![zero::<T>(), zero::<T>(), zero::<T>()]);
        Self::new(
            origin,
            Quaternion::identity(),
            T::from(90i8),
            T::from(1i8),
            T::from(1i8),
            T::from(100i8),
        )
    }
}

} // verus!
