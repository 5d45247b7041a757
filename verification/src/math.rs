//! Fixed-size linear algebra over a generic scalar.
pub mod laws;
pub mod matrix;
pub mod quaternion;
pub mod scalar;
pub mod transform;
pub mod triangles;
pub mod vector;

pub use matrix::{Mat3, Mat4, Matrix, Matrix3x3, Matrix4x4};
pub use quaternion::Quaternion;
pub use scalar::Scalar;
pub use triangles::Triangle;
pub use vector::{Vector, Vector3, Vector4};

use scalar::{obeys_scalar_spec, two, zero};
use vstd::prelude::*;
use vstd::std_specs::convert::FromSpec;
use vstd::std_specs::ops::{AddSpec, DivSpec, MulSpec, SubSpec};

verus! {

/// A color: red, green, blue and alpha.
pub type Color<T> = Vector4<T>;

/// The scalar `-1`.
pub open spec fn minus_one<T: Scalar>() -> T {
    T::from_spec(-1i8)
}

/// The perspective projection with focal scale `s` (the cotangent of half the
/// field of view), aspect ratio `aspect` and clip planes `near` and `far`.
pub open spec fn perspective_spec<T: Scalar>(s: T, aspect: T, near: T, far: T) -> Seq<Seq<T>> {
    seq![
        seq![s.div_spec(aspect), zero::<T>(), zero::<T>(), zero::<T>()],
        seq![zero::<T>(), s, zero::<T>(), zero::<T>()],
        seq![
            zero::<T>(),
            zero::<T>(),
            far.add_spec(near).div_spec(near.sub_spec(far)),
            two::<T>().mul_spec(far).mul_spec(near).div_spec(near.sub_spec(far)),
        ],
        seq![zero::<T>(), zero::<T>(), minus_one::<T>(), zero::<T>()],
    ]
}

/// Whether every operation of `perspective_spec` may be evaluated.
pub open spec fn perspective_req<T: Scalar>(s: T, aspect: T, near: T, far: T) -> bool {
    &&& s.div_req(aspect)
    &&& far.add_req(near)
    &&& near.sub_req(far)
    &&& far.add_spec(near).div_req(near.sub_spec(far))
    &&& two::<T>().mul_req(far)
    &&& two::<T>().mul_spec(far).mul_req(near)
    &&& two::<T>().mul_spec(far).mul_spec(near).div_req(near.sub_spec(far))
}

/// The perspective matrix for a focal scale, an aspect ratio and the two clip
/// planes. The focal scale is `1 / tan(fov / 2)` for a field of view `fov`.
pub fn perspective<T: Scalar>(focal_scale: T, aspect: T, near: T, far: T) -> (r: Mat4<T>)
    requires
        obeys_scalar_spec::<T>(),
        perspective_req(focal_scale, aspect, near, far),
    ensures
        r@ == perspective_spec(focal_scale, aspect, near, far),
{
    let o = T::from(0i8);
    let depth = near - far;
    let r = Matrix(
        [
            [focal_scale / aspect, o, o, o],
            [o, focal_scale, o, o],
            [o, o, (far + near) / depth, (T::from(2i8) * far * near) / depth],
            [o, o, T::from(-1i8), o],
        ],
    );
    proof {
        let s = perspective_spec(focal_scale, aspect, near, far);
        assert(r@[0] =~= s[0]);
        assert(r@[1] =~= s[1]);
        assert(r@[2] =~= s[2]);
        assert(r@[3] =~= s[3]);
        assert(r@ =~= s);
    }
    r
}

} // verus!
