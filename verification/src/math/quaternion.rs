//! Rotations as quaternions.
use crate::math::matrix::Matrix;
use crate::math::scalar::{
    obeys_scalar_spec, one, op_req, op_spec, pm_req, pm_spec, two, zero, BinOp, Scalar,
};
use crate::math::vector::{map_req, Vector};
use vstd::prelude::*;
use vstd::std_specs::cmp::PartialEqSpec;
use vstd::std_specs::ops::{AddSpec, DivSpec, MulSpec, MulSpecImpl, SubSpec};

verus! {

/// A rotation `w + xi + yj + zk`. The conversions to matrices assume unit
/// length and do not renormalize.
#[derive(Debug, Clone, Copy)]
pub struct Quaternion<T> {
    pub w: T,
    pub x: T,
    pub y: T,
    pub z: T,
}

/// `((a0*b0 ± a1*b1) ± a2*b2) ± a3*b3`, adding where the flag is set and
/// subtracting where it is not.
pub open spec fn lin4_spec<T: Scalar>(
    a0: T,
    b0: T,
    a1: T,
    b1: T,
    plus1: bool,
    a2: T,
    b2: T,
    plus2: bool,
    a3: T,
    b3: T,
    plus3: bool,
) -> T {
    pm_spec(
        pm_spec(pm_spec(a0.mul_spec(b0), a1.mul_spec(b1), plus1), a2.mul_spec(b2), plus2),
        a3.mul_spec(b3),
        plus3,
    )
}

/// Whether every operation of `lin4_spec` may be evaluated.
pub open spec fn lin4_req<T: Scalar>(
    a0: T,
    b0: T,
    a1: T,
    b1: T,
    plus1: bool,
    a2: T,
    b2: T,
    plus2: bool,
    a3: T,
    b3: T,
    plus3: bool,
) -> bool {
    &&& a0.mul_req(b0)
    &&& a1.mul_req(b1)
    &&& a2.mul_req(b2)
    &&& a3.mul_req(b3)
    &&& pm_req(a0.mul_spec(b0), a1.mul_spec(b1), plus1)
    &&& pm_req(pm_spec(a0.mul_spec(b0), a1.mul_spec(b1), plus1), a2.mul_spec(b2), plus2)
    &&& pm_req(
        pm_spec(pm_spec(a0.mul_spec(b0), a1.mul_spec(b1), plus1), a2.mul_spec(b2), plus2),
        a3.mul_spec(b3),
        plus3,
    )
}

/// The Hamilton product `a * b`.
pub open spec fn hamilton_spec<T: Scalar>(a: Quaternion<T>, b: Quaternion<T>) -> Quaternion<T> {
    Quaternion {
        w: lin4_spec(a.w, b.w, a.x, b.x, false, a.y, b.y, false, a.z, b.z, false),
        x: lin4_spec(a.w, b.x, a.x, b.w, true, a.y, b.z, true, a.z, b.y, false),
        y: lin4_spec(a.w, b.y, a.x, b.z, false, a.y, b.w, true, a.z, b.x, true),
        z: lin4_spec(a.w, b.z, a.x, b.y, true, a.y, b.x, false, a.z, b.w, true),
    }
}

/// Whether every operation of the Hamilton product may be evaluated.
pub open spec fn hamilton_req<T: Scalar>(a: Quaternion<T>, b: Quaternion<T>) -> bool {
    &&& lin4_req(a.w, b.w, a.x, b.x, false, a.y, b.y, false, a.z, b.z, false)
    &&& lin4_req(a.w, b.x, a.x, b.w, true, a.y, b.z, true, a.z, b.y, false)
    &&& lin4_req(a.w, b.y, a.x, b.z, false, a.y, b.w, true, a.z, b.x, true)
    &&& lin4_req(a.w, b.z, a.x, b.y, true, a.y, b.x, false, a.z, b.w, true)
}

/// `2 * (a*b ± c*d)`.
pub open spec fn rot_entry_spec<T: Scalar>(a: T, b: T, c: T, d: T, plus: bool) -> T {
    two::<T>().mul_spec(pm_spec(a.mul_spec(b), c.mul_spec(d), plus))
}

/// Whether `2 * (a*b ± c*d)` may be evaluated.
pub open spec fn rot_entry_req<T: Scalar>(a: T, b: T, c: T, d: T, plus: bool) -> bool {
    &&& a.mul_req(b)
    &&& c.mul_req(d)
    &&& pm_req(a.mul_spec(b), c.mul_spec(d), plus)
    &&& two::<T>().mul_req(pm_spec(a.mul_spec(b), c.mul_spec(d), plus))
}

/// `1 - 2 * (a*a + b*b)`.
pub open spec fn rot_diag_spec<T: Scalar>(a: T, b: T) -> T {
    one::<T>().sub_spec(rot_entry_spec(a, a, b, b, true))
}

/// Whether `1 - 2 * (a*a + b*b)` may be evaluated.
pub open spec fn rot_diag_req<T: Scalar>(a: T, b: T) -> bool {
    &&& rot_entry_req(a, a, b, b, true)
    &&& one::<T>().sub_req(rot_entry_spec(a, a, b, b, true))
}

/// The three rows of the rotation matrix of `q`, by the standard formula.
pub open spec fn rotation_rows_spec<T: Scalar>(q: Quaternion<T>) -> Seq<Seq<T>> {
    seq![
        seq![
            rot_diag_spec(q.y, q.z),
            rot_entry_spec(q.x, q.y, q.z, q.w, false),
            rot_entry_spec(q.x, q.z, q.y, q.w, true),
        ],
        seq![
            rot_entry_spec(q.x, q.y, q.z, q.w, true),
            rot_diag_spec(q.x, q.z),
            rot_entry_spec(q.y, q.z, q.x, q.w, false),
        ],
        seq![
            rot_entry_spec(q.x, q.z, q.y, q.w, false),
            rot_entry_spec(q.y, q.z, q.x, q.w, true),
            rot_diag_spec(q.x, q.y),
        ],
    ]
}

/// Whether every entry of the rotation matrix of `q` may be evaluated.
pub open spec fn rotation_req<T: Scalar>(q: Quaternion<T>) -> bool {
    &&& rot_diag_req(q.y, q.z)
    &&& rot_entry_req(q.x, q.y, q.z, q.w, false)
    &&& rot_entry_req(q.x, q.z, q.y, q.w, true)
    &&& rot_entry_req(q.x, q.y, q.z, q.w, true)
    &&& rot_diag_req(q.x, q.z)
    &&& rot_entry_req(q.y, q.z, q.x, q.w, false)
    &&& rot_entry_req(q.x, q.z, q.y, q.w, false)
    &&& rot_entry_req(q.y, q.z, q.x, q.w, true)
    &&& rot_diag_req(q.x, q.y)
}

/// The 3x3 rotation matrix of `q`.
pub open spec fn rotation3_spec<T: Scalar>(q: Quaternion<T>) -> Seq<Seq<T>> {
    rotation_rows_spec(q)
}

/// The 4x4 rotation matrix of `q`: the 3x3 one, extended by the identity.
pub open spec fn rotation4_spec<T: Scalar>(q: Quaternion<T>) -> Seq<Seq<T>> {
    let r = rotation_rows_spec(q);
    seq![
        r[0].push(zero::<T>()),
        r[1].push(zero::<T>()),
        r[2].push(zero::<T>()),
        seq![zero::<T>(), zero::<T>(), zero::<T>(), one::<T>()],
    ]
}

/// The identity rotation `{1, 0, 0, 0}`.
pub open spec fn identity_quaternion<T: Scalar>() -> Quaternion<T> {
    Quaternion { w: one::<T>(), x: zero::<T>(), y: zero::<T>(), z: zero::<T>() }
}

/// The rotation with half-angle cosine `cos_half` and sine `sin_half` about
/// `axis`, whose length is `axis_length`: the identity for an axis of length
/// zero, and otherwise `{cos_half, sin_half * axis / axis_length}`.
pub open spec fn rotation_spec<T: Scalar>(
    cos_half: T,
    sin_half: T,
    axis: Seq<T>,
    axis_length: T,
) -> Quaternion<T> {
    if axis_length.eq_spec(&zero::<T>()) {
        identity_quaternion::<T>()
    } else {
        Quaternion {
            w: cos_half,
            x: axis[0].div_spec(axis_length).mul_spec(sin_half),
            y: axis[1].div_spec(axis_length).mul_spec(sin_half),
            z: axis[2].div_spec(axis_length).mul_spec(sin_half),
        }
    }
}

/// Whether the divisions and multiplications of `rotation_spec` may be evaluated.
pub open spec fn rotation_parts_req<T: Scalar>(sin_half: T, axis: Seq<T>, axis_length: T) -> bool {
    &&& map_req(BinOp::Div, axis, axis_length, 3)
    &&& axis[0].div_spec(axis_length).mul_req(sin_half)
    &&& axis[1].div_spec(axis_length).mul_req(sin_half)
    &&& axis[2].div_spec(axis_length).mul_req(sin_half)
}

/// Computes `((a0*b0 ± a1*b1) ± a2*b2) ± a3*b3`.
fn lin4<T: Scalar>(
    a0: T,
    b0: T,
    a1: T,
    b1: T,
    plus1: bool,
    a2: T,
    b2: T,
    plus2: bool,
    a3: T,
    b3: T,
    plus3: bool,
) -> (r: T)
    requires
        obeys_scalar_spec::<T>(),
        lin4_req(a0, b0, a1, b1, plus1, a2, b2, plus2, a3, b3, plus3),
    ensures
        r == lin4_spec(a0, b0, a1, b1, plus1, a2, b2, plus2, a3, b3, plus3),
{
    let s0 = a0 * b0;
    let t1 = a1 * b1;
    let s1 = if plus1 {
        s0 + t1
    } else {
        s0 - t1
    };
    let t2 = a2 * b2;
    let s2 = if plus2 {
        s1 + t2
    } else {
        s1 - t2
    };
    let t3 = a3 * b3;
    if plus3 {
        s2 + t3
    } else {
        s2 - t3
    }
}

/// Computes `2 * (a*b ± c*d)`.
fn rot_entry<T: Scalar>(a: T, b: T, c: T, d: T, plus: bool) -> (r: T)
    requires
        obeys_scalar_spec::<T>(),
        rot_entry_req(a, b, c, d, plus),
    ensures
        r == rot_entry_spec(a, b, c, d, plus),
{
    let p = a * b;
    let q = c * d;
    let s = if plus {
        p + q
    } else {
        p - q
    };
    T::from(2i8) * s
}

/// Computes `1 - 2 * (a*a + b*b)`.
fn rot_diag<T: Scalar>(a: T, b: T) -> (r: T)
    requires
        obeys_scalar_spec::<T>(),
        rot_diag_req(a, b),
    ensures
        r == rot_diag_spec(a, b),
{
    T::from(1i8) - rot_entry(a, a, b, b, true)
}

impl<T: Scalar> Quaternion<T> {
    /// The identity rotation `{1, 0, 0, 0}`.
    pub fn identity() -> (r: Self)
        ensures
            obeys_scalar_spec::<T>() ==> r == identity_quaternion::<T>(),
    {
        Self { w: T::from(1i8), x: T::from(0i8), y: T::from(0i8), z: T::from(0i8) }
    }

    /// The rotation about `axis` whose half angle has cosine `cos_half` and
    /// sine `sin_half`. `axis_length` is the Euclidean length of `axis`; the
    /// axis is divided by it. An axis of length zero yields the identity.
    pub fn from_rotation(cos_half: T, sin_half: T, axis: Vector<T, 3>, axis_length: T) -> (r: Self)
        requires
            obeys_scalar_spec::<T>(),
            axis_length.eq_spec(&zero::<T>()) || rotation_parts_req(sin_half, axis@, axis_length),
        ensures
            r == rotation_spec(cos_half, sin_half, axis@, axis_length),
    {
        if axis_length == T::from(0i8) {
            return Self::identity();
        }
        let n = axis.normalized_by(axis_length);
        assert(n@[0] == axis@[0].div_spec(axis_length));
        assert(n@[1] == axis@[1].div_spec(axis_length));
        assert(n@[2] == axis@[2].div_spec(axis_length));
        Self { w: cos_half, x: n.0[0] * sin_half, y: n.0[1] * sin_half, z: n.0[2] * sin_half }
    }

    /// The Hamilton product `self * rhs`.
    pub fn hamilton(self, rhs: Self) -> (r: Self)
        requires
            obeys_scalar_spec::<T>(),
            hamilton_req(self, rhs),
        ensures
            r == hamilton_spec(self, rhs),
    {
        let a = self;
        let b = rhs;
        Self {
            w: lin4(a.w, b.w, a.x, b.x, false, a.y, b.y, false, a.z, b.z, false),
            x: lin4(a.w, b.x, a.x, b.w, true, a.y, b.z, true, a.z, b.y, false),
            y: lin4(a.w, b.y, a.x, b.z, false, a.y, b.w, true, a.z, b.x, true),
            z: lin4(a.w, b.z, a.x, b.y, true, a.y, b.x, false, a.z, b.w, true),
        }
    }

    /// The 3x3 rotation matrix, by the standard formula.
    pub fn to_matrix3x3(&self) -> (r: Matrix<T, 3, 3>)
        requires
            obeys_scalar_spec::<T>(),
            rotation_req(*self),
        ensures
            r@ == rotation3_spec(*self),
    {
        let (w, x, y, z) = (self.w, self.x, self.y, self.z);
        let r = Matrix(
            [
                [rot_diag(y, z), rot_entry(x, y, z, w, false), rot_entry(x, z, y, w, true)],
                [rot_entry(x, y, z, w, true), rot_diag(x, z), rot_entry(y, z, x, w, false)],
                [rot_entry(x, z, y, w, false), rot_entry(y, z, x, w, true), rot_diag(x, y)],
            ],
        );
        proof {
            let s = rotation3_spec(*self);
            assert(r@[0] =~= s[0]);
            assert(r@[1] =~= s[1]);
            assert(r@[2] =~= s[2]);
            assert(r@ =~= s);
        }
        r
    }

    /// The 4x4 rotation matrix: the 3x3 one in the upper left corner of the identity.
    pub fn to_matrix4x4(&self) -> (r: Matrix<T, 4, 4>)
        requires
            obeys_scalar_spec::<T>(),
            rotation_req(*self),
        ensures
            r@ == rotation4_spec(*self),
    {
        let (w, x, y, z) = (self.w, self.x, self.y, self.z);
        let o = T::from(0i8);
        let r = Matrix(
            [
                [rot_diag(y, z), rot_entry(x, y, z, w, false), rot_entry(x, z, y, w, true), o],
                [rot_entry(x, y, z, w, true), rot_diag(x, z), rot_entry(y, z, x, w, false), o],
                [rot_entry(x, z, y, w, false), rot_entry(y, z, x, w, true), rot_diag(x, y), o],
                [o, o, o, T::from(1i8)],
            ],
        );
        proof {
            let s = rotation4_spec(*self);
            assert(r@[0] =~= s[0]);
            assert(r@[1] =~= s[1]);
            assert(r@[2] =~= s[2]);
            assert(r@[3] =~= s[3]);
            assert(r@ =~= s);
        }
        r
    }
}

impl<T: Scalar> MulSpecImpl for Quaternion<T> {
    open spec fn obeys_mul_spec() -> bool {
        false
    }

    open spec fn mul_req(self, rhs: Self) -> bool {
        obeys_scalar_spec::<T>() && hamilton_req(self, rhs)
    }

    open spec fn mul_spec(self, rhs: Self) -> Self {
        self
    }
}

impl<T: Scalar> core::ops::Mul for Quaternion<T> {
    type Output = Self;

    /// The Hamilton product. As a composition of rotations, `a * b` applies
    /// `b` first and then `a`: `b` acts in the local frame of `a`.
    fn mul(self, rhs: Self) -> (r: Self)
        ensures
            r == hamilton_spec(self, rhs),
    {
        self.hamilton(rhs)
    }
}

} // verus!
