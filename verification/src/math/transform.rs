//! Scaling, translating and rotating vectors by multiplying them with a matrix.
use crate::math::matrix::{mat_vec_req, mat_vec_spec, Matrix};
use crate::math::quaternion::{rotation3_spec, rotation4_spec, rotation_req, Quaternion};
use crate::math::scalar::{obeys_scalar_spec, one, zero, Scalar};
use crate::math::vector::Vector;
use vstd::prelude::*;

verus! {

/// The 4x4 matrix with `s` on its diagonal, followed by one.
pub open spec fn scale4_spec<T: Scalar>(s: Seq<T>) -> Seq<Seq<T>> {
    seq![
        seq![s[0], zero::<T>(), zero::<T>(), zero::<T>()],
        seq![zero::<T>(), s[1], zero::<T>(), zero::<T>()],
        seq![zero::<T>(), zero::<T>(), s[2], zero::<T>()],
        seq![zero::<T>(), zero::<T>(), zero::<T>(), one::<T>()],
    ]
}

/// The 3x3 matrix with `s` on its diagonal.
pub open spec fn scale3_spec<T: Scalar>(s: Seq<T>) -> Seq<Seq<T>> {
    seq![
        seq![s[0], zero::<T>(), zero::<T>()],
        seq![zero::<T>(), s[1], zero::<T>()],
        seq![zero::<T>(), zero::<T>(), s[2]],
    ]
}

/// The 4x4 matrix whose last column is `t` followed by one, and whose other
/// entries are zero.
pub open spec fn offset4_spec<T: Scalar>(t: Seq<T>) -> Seq<Seq<T>> {
    seq![
        seq![zero::<T>(), zero::<T>(), zero::<T>(), t[0]],
        seq![zero::<T>(), zero::<T>(), zero::<T>(), t[1]],
        seq![zero::<T>(), zero::<T>(), zero::<T>(), t[2]],
        seq![zero::<T>(), zero::<T>(), zero::<T>(), one::<T>()],
    ]
}

/// The 3x3 matrix whose last column is `t`, and whose other entries are zero.
pub open spec fn offset3_spec<T: Scalar>(t: Seq<T>) -> Seq<Seq<T>> {
    seq![
        seq![zero::<T>(), zero::<T>(), t[0]],
        seq![zero::<T>(), zero::<T>(), t[1]],
        seq![zero::<T>(), zero::<T>(), t[2]],
    ]
}

impl<T: Scalar> Vector<T, 4> {
    /// The vector multiplied by the scaling matrix of `scale`.
    pub fn scaled(self, scale: Vector<T, 3>) -> (r: Self)
        requires
            obeys_scalar_spec::<T>(),
            mat_vec_req(scale4_spec(scale@), self@, 4),
        ensures
            r@ == mat_vec_spec(scale4_spec(scale@), self@, 4),
    {
        let o = T::from(0i8);
        let m = Matrix(
            [
                [scale.0[0], o, o, o],
                [o, scale.0[1], o, o],
                [o, o, scale.0[2], o],
                [o, o, o, T::from(1i8)],
            ],
        );
        proof {
            let s = scale4_spec(scale@);
            assert(m@[0] =~= s[0]);
            assert(m@[1] =~= s[1]);
            assert(m@[2] =~= s[2]);
            assert(m@[3] =~= s[3]);
            assert(m@ =~= s);
        }
        m * self
    }

    /// The vector multiplied by the matrix whose last column is `trans`
    /// followed by one and whose other entries are zero.
    pub fn translated(self, trans: Vector<T, 3>) -> (r: Self)
        requires
            obeys_scalar_spec::<T>(),
            mat_vec_req(offset4_spec(trans@), self@, 4),
        ensures
            r@ == mat_vec_spec(offset4_spec(trans@), self@, 4),
    {
        let o = T::from(0i8);
        let m = Matrix(
            [
                [o, o, o, trans.0[0]],
                [o, o, o, trans.0[1]],
                [o, o, o, trans.0[2]],
                [o, o, o, T::from(1i8)],
            ],
        );
        proof {
            let s = offset4_spec(trans@);
            assert(m@[0] =~= s[0]);
            assert(m@[1] =~= s[1]);
            assert(m@[2] =~= s[2]);
            assert(m@[3] =~= s[3]);
            assert(m@ =~= s);
        }
        m * self
    }

    /// The vector multiplied by the 4x4 rotation matrix of `rot`.
    pub fn rotated(self, rot: Quaternion<T>) -> (r: Self)
        requires
            obeys_scalar_spec::<T>(),
            rotation_req(rot),
            mat_vec_req(rotation4_spec(rot), self@, 4),
        ensures
            r@ == mat_vec_spec(rotation4_spec(rot), self@, 4),
    {
        rot.to_matrix4x4() * self
    }
}

impl<T: Scalar> Vector<T, 3> {
    /// The vector multiplied by the scaling matrix of `scale`.
    pub fn scaled(self, scale: Vector<T, 3>) -> (r: Self)
        requires
            obeys_scalar_spec::<T>(),
            mat_vec_req(scale3_spec(scale@), self@, 3),
        ensures
            r@ == mat_vec_spec(scale3_spec(scale@), self@, 3),
    {
        let o = T::from(0i8);
        let m = Matrix([[scale.0[0], o, o], [o, scale.0[1], o], [o, o, scale.0[2]]]);
        proof {
            let s = scale3_spec(scale@);
            assert(m@[0] =~= s[0]);
            assert(m@[1] =~= s[1]);
            assert(m@[2] =~= s[2]);
            assert(m@ =~= s);
        }
        m * self
    }

    /// The vector multiplied by the matrix whose last column is `trans` and
    /// whose other entries are zero.
    pub fn translated(self, trans: Vector<T, 3>) -> (r: Self)
        requires
            obeys_scalar_spec::<T>(),
            mat_vec_req(offset3_spec(trans@), self@, 3),
        ensures
            r@ == mat_vec_spec(offset3_spec(trans@), self@, 3),
    {
        let o = T::from(0i8);
        let m = Matrix([[o, o, trans.0[0]], [o, o, trans.0[1]], [o, o, trans.0[2]]]);
        proof {
            let s = offset3_spec(trans@);
            assert(m@[0] =~= s[0]);
            assert(m@[1] =~= s[1]);
            assert(m@[2] =~= s[2]);
            assert(m@ =~= s);
        }
        m * self
    }

    /// The vector multiplied by the 3x3 rotation matrix of `rot`.
    pub fn rotated(self, rot: Quaternion<T>) -> (r: Self)
        requires
            obeys_scalar_spec::<T>(),
            rotation_req(rot),
            mat_vec_req(rotation3_spec(rot), self@, 3),
        ensures
            r@ == mat_vec_spec(rotation3_spec(rot), self@, 3),
    {
        rot.to_matrix3x3() * self
    }
}

} // verus!
