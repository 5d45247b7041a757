//! Fixed-arity vectors with componentwise algebra.
use crate::math::scalar::{
    apply, dot_req, dot_spec, lemma_dot_req_prefix, obeys_scalar_spec, op_req, op_spec, BinOp,
    Scalar,
};
use core::ops::Neg;
use vstd::prelude::*;
use vstd::std_specs::ops::{
    AddSpec, AddSpecImpl, DivSpecImpl, MulSpec, MulSpecImpl, NegSpec, NegSpecImpl, SubSpec,
    SubSpecImpl,
};

verus! {

/// A vector with three components.
pub type Vector3<T> = Vector<T, 3>;

/// A vector with four components.
pub type Vector4<T> = Vector<T, 4>;

/// `N` scalar components, indexable by position.
#[derive(Clone, Copy, PartialEq, Debug)]
pub struct Vector<T, const N: usize>(pub [T; N]);

impl<T, const N: usize> View for Vector<T, N> {
    type V = Seq<T>;

    open spec fn view(&self) -> Seq<T> {
        self.0@
    }
}

/// The componentwise combination of two sequences of length `n`.
pub open spec fn zip_spec<T: Scalar>(op: BinOp, a: Seq<T>, b: Seq<T>, n: nat) -> Seq<T> {
    Seq::new(n, |i: int| op_spec(op, a[i], b[i]))
}

/// Whether each of the `n` componentwise operations may be evaluated.
pub open spec fn zip_req<T: Scalar>(op: BinOp, a: Seq<T>, b: Seq<T>, n: nat) -> bool {
    forall|i: int| 0 <= i < n ==> op_req(op, #[trigger] a[i], b[i])
}

/// Combines two arrays component by component.
pub fn zip_arrays<T: Scalar, const N: usize>(op: BinOp, a: &[T; N], b: &[T; N]) -> (r: [T; N])
    requires
        zip_req(op, a@, b@, N as nat),
    ensures
        obeys_scalar_spec::<T>() ==> r@ == zip_spec(op, a@, b@, N as nat),
{
    let mut r = *a;
    let mut i: usize = 0;
    while i < N
        invariant
            0 <= i <= N,
            zip_req(op, a@, b@, N as nat),
            obeys_scalar_spec::<T>() ==> forall|j: int|
                0 <= j < i ==> r@[j] == op_spec(op, a@[j], b@[j]),
        decreases N - i,
    {
        r[i] = apply(op, a[i], b[i]);
        i += 1;
    }
    assert(obeys_scalar_spec::<T>() ==> r@ =~= zip_spec(op, a@, b@, N as nat));
    r
}

/// Each of the first `n` components combined with one scalar on the right.
pub open spec fn map_spec<T: Scalar>(op: BinOp, a: Seq<T>, s: T, n: nat) -> Seq<T> {
    Seq::new(n, |i: int| op_spec(op, a[i], s))
}

/// Whether each of the `n` operations with the scalar may be evaluated.
pub open spec fn map_req<T: Scalar>(op: BinOp, a: Seq<T>, s: T, n: nat) -> bool {
    forall|i: int| 0 <= i < n ==> op_req(op, #[trigger] a[i], s)
}

/// Combines each component of an array with one scalar on the right.
pub fn map_array<T: Scalar, const N: usize>(op: BinOp, a: &[T; N], s: T) -> (r: [T; N])
    requires
        map_req(op, a@, s, N as nat),
    ensures
        obeys_scalar_spec::<T>() ==> r@ == map_spec(op, a@, s, N as nat),
{
    let mut r = *a;
    let mut i: usize = 0;
    while i < N
        invariant
            0 <= i <= N,
            map_req(op, a@, s, N as nat),
            obeys_scalar_spec::<T>() ==> forall|j: int|
                0 <= j < i ==> r@[j] == op_spec(op, a@[j], s),
        decreases N - i,
    {
        r[i] = apply(op, a[i], s);
        i += 1;
    }
    assert(obeys_scalar_spec::<T>() ==> r@ =~= map_spec(op, a@, s, N as nat));
    r
}

/// The dot product of two arrays.
pub fn dot_arrays<T: Scalar, const N: usize>(a: &[T; N], b: &[T; N]) -> (r: T)
    requires
        obeys_scalar_spec::<T>(),
        dot_req(a@, b@, N as nat),
    ensures
        r == dot_spec(a@, b@, N as nat),
{
    let mut acc = T::from(0i8);
    let mut i: usize = 0;
    while i < N
        invariant
            0 <= i <= N,
            obeys_scalar_spec::<T>(),
            dot_req(a@, b@, N as nat),
            acc == dot_spec(a@, b@, i as nat),
        decreases N - i,
    {
        proof {
            lemma_dot_req_prefix(a@, b@, N as nat, (i + 1) as nat);
        }
        acc = acc + a[i] * b[i];
        i += 1;
    }
    acc
}

impl<T: Scalar, const N: usize> Vector<T, N> {
    /// Wraps the components.
    pub fn new(v: [T; N]) -> (r: Self)
        ensures
            r.0 == v,
    {
        Self(v)
    }

    /// The components.
    pub fn as_array(&self) -> (r: [T; N])
        ensures
            r == self.0,
    {
        self.0
    }

    /// The component at position `index`.
    pub fn get(&self, index: usize) -> (r: T)
        requires
            index < N,
        ensures
            r == self@[index as int],
    {
        self.0[index]
    }

    /// `a0*b0 + a1*b1 + ...`, accumulated from zero, left to right.
    pub fn dot(&self, other: &Self) -> (r: T)
        requires
            obeys_scalar_spec::<T>(),
            dot_req(self@, other@, N as nat),
        ensures
            r == dot_spec(self@, other@, N as nat),
    {
        dot_arrays(&self.0, &other.0)
    }

    /// The square of the Euclidean length: the dot product of the vector with itself.
    pub fn length_squared(&self) -> (r: T)
        requires
            obeys_scalar_spec::<T>(),
            dot_req(self@, self@, N as nat),
        ensures
            r == dot_spec(self@, self@, N as nat),
    {
        dot_arrays(&self.0, &self.0)
    }

    /// Every component divided by `length`. With the vector's Euclidean length
    /// this is the normalized vector.
    pub fn normalized_by(&self, length: T) -> (r: Self)
        requires
            map_req(BinOp::Div, self@, length, N as nat),
        ensures
            obeys_scalar_spec::<T>() ==> r@ == map_spec(BinOp::Div, self@, length, N as nat),
    {
        Self(map_array(BinOp::Div, &self.0, length))
    }
}

/// The negation of each of the first `n` components.
pub open spec fn neg_seq_spec<T: Scalar>(a: Seq<T>, n: nat) -> Seq<T> {
    Seq::new(n, |i: int| a[i].neg_spec())
}

/// Whether each of the first `n` components may be negated.
pub open spec fn neg_seq_req<T: Scalar>(a: Seq<T>, n: nat) -> bool {
    forall|i: int| 0 <= i < n ==> (#[trigger] a[i]).neg_req()
}

/// `a*b - c*d`.
pub open spec fn cross_term_spec<T: Scalar>(a: T, b: T, c: T, d: T) -> T {
    a.mul_spec(b).sub_spec(c.mul_spec(d))
}

/// Whether `a*b - c*d` may be evaluated.
pub open spec fn cross_term_req<T: Scalar>(a: T, b: T, c: T, d: T) -> bool {
    &&& a.mul_req(b)
    &&& c.mul_req(d)
    &&& a.mul_spec(b).sub_req(c.mul_spec(d))
}

/// The cross product of two sequences of three components.
pub open spec fn cross_spec<T: Scalar>(a: Seq<T>, b: Seq<T>) -> Seq<T> {
    seq![
        cross_term_spec(a[1], b[2], a[2], b[1]),
        cross_term_spec(a[2], b[0], a[0], b[2]),
        cross_term_spec(a[0], b[1], a[1], b[0]),
    ]
}

/// Whether the cross product may be evaluated.
pub open spec fn cross_req<T: Scalar>(a: Seq<T>, b: Seq<T>) -> bool {
    &&& cross_term_req(a[1], b[2], a[2], b[1])
    &&& cross_term_req(a[2], b[0], a[0], b[2])
    &&& cross_term_req(a[0], b[1], a[1], b[0])
}

impl<T: Scalar> Vector<T, 3> {
    /// The cross product `self x other`, by the determinant expansion.
    pub fn cross(&self, other: &Self) -> (r: Self)
        requires
            obeys_scalar_spec::<T>(),
            cross_req(self@, other@),
        ensures
            r@ == cross_spec(self@, other@),
    {
        let a = &self.0;
        let b = &other.0;
        let r = Self(
            [a[1] * b[2] - a[2] * b[1], a[2] * b[0] - a[0] * b[2], a[0] * b[1] - a[1] * b[0]],
        );
        assert(r@ =~= cross_spec(self@, other@));
        r
    }

    /// The world's up direction, `(0, 1, 0)`.
    pub fn up() -> (r: Self)
        ensures
            obeys_scalar_spec::<T>() ==> r@ == seq![
                crate::math::scalar::zero::<T>(),
                crate::math::scalar::one::<T>(),
                crate::math::scalar::zero::<T>(),
            ],
    {
        let r = Self([T::from(0i8), T::from(1i8), T::from(0i8)]);
        assert(obeys_scalar_spec::<T>() ==> r@ =~= seq![
            crate::math::scalar::zero::<T>(),
            crate::math::scalar::one::<T>(),
            crate::math::scalar::zero::<T>(),
        ]);
        r
    }

    /// The world's front direction, `(0, 0, 1)`.
    pub fn front() -> (r: Self)
        ensures
            obeys_scalar_spec::<T>() ==> r@ == seq![
                crate::math::scalar::zero::<T>(),
                crate::math::scalar::zero::<T>(),
                crate::math::scalar::one::<T>(),
            ],
    {
        let r = Self([T::from(0i8), T::from(0i8), T::from(1i8)]);
        assert(obeys_scalar_spec::<T>() ==> r@ =~= seq![
            crate::math::scalar::zero::<T>(),
            crate::math::scalar::zero::<T>(),
            crate::math::scalar::one::<T>(),
        ]);
        r
    }
}

impl<T: Scalar, const N: usize> AddSpecImpl for Vector<T, N> {
    open spec fn obeys_add_spec() -> bool {
        false
    }

    open spec fn add_req(self, rhs: Self) -> bool {
        zip_req(BinOp::Add, self@, rhs@, N as nat)
    }

    open spec fn add_spec(self, rhs: Self) -> Self {
        self
    }
}

impl<T: Scalar, const N: usize> core::ops::Add for Vector<T, N> {
    type Output = Self;

    /// The componentwise sum.
    fn add(self, rhs: Self) -> (r: Self)
        ensures
            obeys_scalar_spec::<T>() ==> r@ == zip_spec(BinOp::Add, self@, rhs@, N as nat),
    {
        Self(zip_arrays(BinOp::Add, &self.0, &rhs.0))
    }
}

impl<T: Scalar, const N: usize> SubSpecImpl for Vector<T, N> {
    open spec fn obeys_sub_spec() -> bool {
        false
    }

    open spec fn sub_req(self, rhs: Self) -> bool {
        zip_req(BinOp::Sub, self@, rhs@, N as nat)
    }

    open spec fn sub_spec(self, rhs: Self) -> Self {
        self
    }
}

impl<T: Scalar, const N: usize> core::ops::Sub for Vector<T, N> {
    type Output = Self;

    /// The componentwise difference.
    fn sub(self, rhs: Self) -> (r: Self)
        ensures
            obeys_scalar_spec::<T>() ==> r@ == zip_spec(BinOp::Sub, self@, rhs@, N as nat),
    {
        Self(zip_arrays(BinOp::Sub, &self.0, &rhs.0))
    }
}

impl<T: Scalar, const N: usize> MulSpecImpl for Vector<T, N> {
    open spec fn obeys_mul_spec() -> bool {
        false
    }

    open spec fn mul_req(self, rhs: Self) -> bool {
        zip_req(BinOp::Mul, self@, rhs@, N as nat)
    }

    open spec fn mul_spec(self, rhs: Self) -> Self {
        self
    }
}

impl<T: Scalar, const N: usize> core::ops::Mul for Vector<T, N> {
    type Output = Self;

    /// The componentwise product (neither the dot nor the cross product).
    fn mul(self, rhs: Self) -> (r: Self)
        ensures
            obeys_scalar_spec::<T>() ==> r@ == zip_spec(BinOp::Mul, self@, rhs@, N as nat),
    {
        Self(zip_arrays(BinOp::Mul, &self.0, &rhs.0))
    }
}

impl<T: Scalar, const N: usize> DivSpecImpl for Vector<T, N> {
    open spec fn obeys_div_spec() -> bool {
        false
    }

    open spec fn div_req(self, rhs: Self) -> bool {
        zip_req(BinOp::Div, self@, rhs@, N as nat)
    }

    open spec fn div_spec(self, rhs: Self) -> Self {
        self
    }
}

impl<T: Scalar, const N: usize> core::ops::Div for Vector<T, N> {
    type Output = Self;

    /// The componentwise quotient.
    fn div(self, rhs: Self) -> (r: Self)
        ensures
            obeys_scalar_spec::<T>() ==> r@ == zip_spec(BinOp::Div, self@, rhs@, N as nat),
    {
        Self(zip_arrays(BinOp::Div, &self.0, &rhs.0))
    }
}

impl<T: Scalar, const N: usize> MulSpecImpl<T> for Vector<T, N> {
    open spec fn obeys_mul_spec() -> bool {
        false
    }

    open spec fn mul_req(self, rhs: T) -> bool {
        map_req(BinOp::Mul, self@, rhs, N as nat)
    }

    open spec fn mul_spec(self, rhs: T) -> Self {
        self
    }
}

impl<T: Scalar, const N: usize> core::ops::Mul<T> for Vector<T, N> {
    type Output = Self;

    /// Every component multiplied by the scalar `rhs`.
    fn mul(self, rhs: T) -> (r: Self)
        ensures
            obeys_scalar_spec::<T>() ==> r@ == map_spec(BinOp::Mul, self@, rhs, N as nat),
    {
        Self(map_array(BinOp::Mul, &self.0, rhs))
    }
}

impl<T: Scalar, const N: usize> NegSpecImpl for Vector<T, N> {
    open spec fn obeys_neg_spec() -> bool {
        false
    }

    open spec fn neg_req(self) -> bool {
        neg_seq_req(self@, N as nat)
    }

    open spec fn neg_spec(self) -> Self {
        self
    }
}

impl<T: Scalar, const N: usize> core::ops::Neg for Vector<T, N> {
    type Output = Self;

    /// Every component negated.
    fn neg(self) -> (r: Self)
        ensures
            obeys_scalar_spec::<T>() ==> r@ == neg_seq_spec(self@, N as nat),
    {
        let mut r = self.0;
        let mut i: usize = 0;
        while i < N
            invariant
                0 <= i <= N,
                neg_seq_req(self@, N as nat),
                obeys_scalar_spec::<T>() ==> forall|j: int|
                    0 <= j < i ==> r@[j] == self@[j].neg_spec(),
            decreases N - i,
        {
            r[i] = self.0[i].neg();
            i += 1;
        }
        assert(obeys_scalar_spec::<T>() ==> r@ =~= neg_seq_spec(self@, N as nat));
        Self(r)
    }
}

} // verus!
