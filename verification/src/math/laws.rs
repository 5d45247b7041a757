//! Algebraic laws of the vector, matrix and quaternion operations.
use crate::math::matrix::{column, identity_spec, mat_vec_req, mat_vec_spec, transpose_spec};
use crate::math::quaternion::{hamilton_req, hamilton_spec, identity_quaternion, Quaternion};
use crate::math::scalar::{
    dot_req, dot_spec, lemma_i64_unit_laws, lemma_unit_laws_at, one, unit_laws, unit_laws_at, zero,
    Scalar,
};
use crate::math::perspective_spec;
use vstd::prelude::*;
use vstd::std_specs::ops::{AddSpec, DivSpec, MulSpec, SubSpec};

verus! {

/// Multiplying a quaternion by the identity on the right leaves it
/// unchanged, wherever zero and one behave as such towards its components.
pub proof fn lemma_quaternion_mul_identity_at<T: Scalar>(q: Quaternion<T>)
    requires
        unit_laws_at(q.w),
        unit_laws_at(q.x),
        unit_laws_at(q.y),
        unit_laws_at(q.z),
        unit_laws_at(zero::<T>()),
    ensures
        hamilton_spec(q, identity_quaternion::<T>()) == q,
{
}

/// Multiplying a quaternion by the identity on the left leaves it
/// unchanged, wherever zero and one behave as such towards its components.
pub proof fn lemma_identity_mul_quaternion_at<T: Scalar>(q: Quaternion<T>)
    requires
        unit_laws_at(q.w),
        unit_laws_at(q.x),
        unit_laws_at(q.y),
        unit_laws_at(q.z),
        unit_laws_at(zero::<T>()),
    ensures
        hamilton_spec(identity_quaternion::<T>(), q) == q,
{
}

/// Multiplying a quaternion by the identity on the right leaves it unchanged.
pub proof fn lemma_quaternion_mul_identity<T: Scalar>(q: Quaternion<T>)
    requires
        unit_laws::<T>(),
    ensures
        hamilton_spec(q, identity_quaternion::<T>()) == q,
{
    lemma_unit_laws_at(q.w);
    lemma_unit_laws_at(q.x);
    lemma_unit_laws_at(q.y);
    lemma_unit_laws_at(q.z);
    lemma_unit_laws_at(zero::<T>());
    lemma_quaternion_mul_identity_at(q);
}

/// Multiplying a quaternion by the identity on the left leaves it unchanged.
pub proof fn lemma_identity_mul_quaternion<T: Scalar>(q: Quaternion<T>)
    requires
        unit_laws::<T>(),
    ensures
        hamilton_spec(identity_quaternion::<T>(), q) == q,
{
    lemma_unit_laws_at(q.w);
    lemma_unit_laws_at(q.x);
    lemma_unit_laws_at(q.y);
    lemma_unit_laws_at(q.z);
    lemma_unit_laws_at(zero::<T>());
    lemma_identity_mul_quaternion_at(q);
}

/// Whether zero and one behave as such towards every component of `v`, and
/// towards zero.
pub open spec fn unit_laws_on<T: Scalar>(v: Seq<T>) -> bool {
    &&& unit_laws_at(zero::<T>())
    &&& forall|i: int| 0 <= i < v.len() ==> unit_laws_at(#[trigger] v[i])
}

/// The dot product of row `y` of the identity with `v`, taken over the first
/// `n` components, is `v[y]` once `n` has passed `y`, and zero before.
pub proof fn lemma_identity_row_dot<T: Scalar>(size: nat, y: int, v: Seq<T>, n: nat)
    requires
        unit_laws_on(v),
        0 <= y < size,
        n <= size,
        size <= v.len(),
    ensures
        dot_spec(identity_spec::<T>(size)[y], v, n) == (if y < n {
            v[y]
        } else {
            zero::<T>()
        }),
    decreases n,
{
    if n > 0 {
        lemma_identity_row_dot(size, y, v, (n - 1) as nat);
        let row = identity_spec::<T>(size)[y];
        let k = n - 1;
        assert(unit_laws_at(v[k]));
        assert(unit_laws_at(v[y]));
        if k == y {
            assert(row[k] == one::<T>());
        } else {
            assert(row[k] == zero::<T>());
        }
    }
}

/// The identity matrix times a vector is that vector, wherever zero and one
/// behave as such towards the vector's components.
pub proof fn lemma_identity_mul_vector_at<T: Scalar>(v: Seq<T>)
    requires
        unit_laws_on(v),
    ensures
        mat_vec_spec(identity_spec::<T>(v.len()), v, v.len()) == v,
{
    let p = mat_vec_spec(identity_spec::<T>(v.len()), v, v.len());
    assert forall|y: int| 0 <= y < v.len() implies p[y] == v[y] by {
        lemma_identity_row_dot(v.len(), y, v, v.len());
    }
    assert(p =~= v);
}

/// The identity matrix times a vector is that vector.
pub proof fn lemma_identity_mul_vector<T: Scalar>(v: Seq<T>)
    requires
        unit_laws::<T>(),
    ensures
        mat_vec_spec(identity_spec::<T>(v.len()), v, v.len()) == v,
{
    lemma_unit_laws_at(zero::<T>());
    assert forall|i: int| 0 <= i < v.len() implies unit_laws_at(#[trigger] v[i]) by {
        lemma_unit_laws_at(v[i]);
    }
    lemma_identity_mul_vector_at(v);
}

/// Entry `[x][y]` of the transpose is entry `[y][x]` of the matrix.
pub proof fn lemma_transpose_entry<T>(m: Seq<Seq<T>>, cols: nat, x: int, y: int)
    requires
        0 <= x < cols,
        0 <= y < m.len(),
    ensures
        transpose_spec(m, cols)[x][y] == m[y][x],
{
}

/// Transposing twice returns the matrix itself.
pub proof fn lemma_transpose_involution<T>(m: Seq<Seq<T>>, cols: nat)
    requires
        forall|y: int| 0 <= y < m.len() ==> (#[trigger] m[y]).len() == cols,
    ensures
        transpose_spec(transpose_spec(m, cols), m.len()) == m,
{
    let t = transpose_spec(m, cols);
    let tt = transpose_spec(t, m.len());
    assert forall|y: int| 0 <= y < m.len() implies #[trigger] tt[y] =~= m[y] by {
        assert(tt[y] == column(t, y));
        assert forall|x: int| 0 <= x < cols implies tt[y][x] == m[y][x] by {
            assert(t[x] == column(m, x));
        }
    }
    assert(tt =~= m);
}

/// The horizontal scale of a perspective matrix is the focal scale divided by
/// the aspect ratio, and its vertical scale is the focal scale itself:
/// changing the aspect ratio rescales the horizontal axis only.
pub proof fn lemma_perspective_scales<T: Scalar>(focal_scale: T, aspect: T, near: T, far: T)
    ensures
        perspective_spec(focal_scale, aspect, near, far)[0][0] == focal_scale.div_spec(aspect),
        perspective_spec(focal_scale, aspect, near, far)[1][1] == focal_scale,
{
}

/// The perspective matrices of two aspect ratios differ in their horizontal
/// scale only.
pub proof fn lemma_perspective_aspect<T: Scalar>(
    focal_scale: T,
    aspect: T,
    other: T,
    near: T,
    far: T,
    y: int,
    x: int,
)
    requires
        0 <= y < 4,
        0 <= x < 4,
        !(y == 0 && x == 0),
    ensures
        perspective_spec(focal_scale, aspect, near, far)[y][x] == perspective_spec(
            focal_scale,
            other,
            near,
            far,
        )[y][x],
{
}

/// For 64-bit integers, the dot product of a row of the identity with any
/// vector may be evaluated: no partial sum leaves the range.
pub proof fn lemma_identity_row_req_i64(size: nat, y: int, v: Seq<i64>, n: nat)
    requires
        0 <= y < size,
        n <= size,
        size <= v.len(),
    ensures
        dot_req(identity_spec::<i64>(size)[y], v, n),
    decreases n,
{
    if n > 0 {
        lemma_i64_unit_laws();
        lemma_identity_row_req_i64(size, y, v, (n - 1) as nat);
        lemma_unit_laws_at(zero::<i64>());
        assert forall|i: int| 0 <= i < v.len() implies unit_laws_at(#[trigger] v[i]) by {
            lemma_unit_laws_at(v[i]);
        }
        lemma_identity_row_dot(size, y, v, (n - 1) as nat);
        let row = identity_spec::<i64>(size)[y];
        let k = n - 1;
        if k == y {
            assert(row[k] == 1i64);
            assert(1 * v[k] == v[k]) by (nonlinear_arith);
        } else {
            assert(row[k] == 0i64);
            assert(0 * v[k] == 0) by (nonlinear_arith);
        }
    }
}

/// For 64-bit integers, the identity matrix times any vector may be
/// evaluated, and is that vector.
pub proof fn lemma_identity_mul_vector_i64(v: Seq<i64>)
    ensures
        mat_vec_req(identity_spec::<i64>(v.len()), v, v.len()),
        mat_vec_spec(identity_spec::<i64>(v.len()), v, v.len()) == v,
{
    lemma_i64_unit_laws();
    lemma_identity_mul_vector(v);
    assert forall|y: int| 0 <= y < v.len() implies dot_req(
        #[trigger] identity_spec::<i64>(v.len())[y],
        v,
        v.len(),
    ) by {
        lemma_identity_row_req_i64(v.len(), y, v, v.len());
    }
}

/// For 64-bit integers, the product of any quaternion with the identity may
/// be evaluated, and is that quaternion.
pub proof fn lemma_quaternion_mul_identity_i64(q: Quaternion<i64>)
    ensures
        hamilton_req(q, identity_quaternion::<i64>()),
        hamilton_spec(q, identity_quaternion::<i64>()) == q,
{
    lemma_i64_unit_laws();
    lemma_quaternion_mul_identity(q);
    assert(q.w * 1 == q.w && q.x * 1 == q.x && q.y * 1 == q.y && q.z * 1 == q.z)
        by (nonlinear_arith);
    assert(q.w * 0 == 0 && q.x * 0 == 0 && q.y * 0 == 0 && q.z * 0 == 0) by (nonlinear_arith);
}

} // verus!
