//! The scalar abstraction that the vector, matrix and quaternion code is written against.
use vstd::prelude::*;
use vstd::std_specs::cmp::PartialEqSpec;
use vstd::std_specs::convert::FromSpec;
use vstd::std_specs::ops::{AddSpec, DivSpec, MulSpec, NegSpec, SubSpec};

verus! {

/// A number type usable as a vector or matrix component: copyable, comparable,
/// closed under the four arithmetic operators and negation, and able to
/// represent the small constants `0`, `1` and `2`.
pub trait Scalar: Copy + From<i8> + PartialEq + core::ops::Add<Output = Self> + core::ops::Sub<
    Output = Self,
> + core::ops::Mul<Output = Self> + core::ops::Div<Output = Self> + core::ops::Neg<Output = Self> {

}

impl<
    T: Copy + From<i8> + PartialEq + core::ops::Add<Output = T> + core::ops::Sub<
        Output = T,
    > + core::ops::Mul<Output = T> + core::ops::Div<Output = T> + core::ops::Neg<Output = T>,
> Scalar for T {

}

/// Whether the operators of `T` compute exactly what their specifications say.
/// Every contract of the numeric code is stated for such scalars.
pub open spec fn obeys_scalar_spec<T: Scalar>() -> bool {
    &&& T::obeys_add_spec()
    &&& T::obeys_sub_spec()
    &&& T::obeys_mul_spec()
    &&& T::obeys_div_spec()
    &&& T::obeys_neg_spec()
    &&& T::obeys_eq_spec()
    &&& <T as FromSpec<i8>>::obeys_from_spec()
}

/// The scalar `0`.
pub open spec fn zero<T: Scalar>() -> T {
    T::from_spec(0i8)
}

/// The scalar `1`.
pub open spec fn one<T: Scalar>() -> T {
    T::from_spec(1i8)
}

/// The scalar `2`.
pub open spec fn two<T: Scalar>() -> T {
    T::from_spec(2i8)
}

/// The four componentwise binary operations.
#[derive(Clone, Copy, PartialEq, Eq, Structural, Debug)]
pub enum BinOp {
    Add,
    Sub,
    Mul,
    Div,
}

/// The value of `a op b`.
pub open spec fn op_spec<T: Scalar>(op: BinOp, a: T, b: T) -> T {
    match op {
        BinOp::Add => a.add_spec(b),
        BinOp::Sub => a.sub_spec(b),
        BinOp::Mul => a.mul_spec(b),
        BinOp::Div => a.div_spec(b),
    }
}

/// Whether `a op b` may be evaluated (for the integers: it does not overflow,
/// and a divisor is not zero).
pub open spec fn op_req<T: Scalar>(op: BinOp, a: T, b: T) -> bool {
    match op {
        BinOp::Add => a.add_req(b),
        BinOp::Sub => a.sub_req(b),
        BinOp::Mul => a.mul_req(b),
        BinOp::Div => a.div_req(b),
    }
}

/// Evaluates `a op b`.
pub fn apply<T: Scalar>(op: BinOp, a: T, b: T) -> (r: T)
    requires
        op_req(op, a, b),
    ensures
        obeys_scalar_spec::<T>() ==> r == op_spec(op, a, b),
{
    match op {
        BinOp::Add => a + b,
        BinOp::Sub => a - b,
        BinOp::Mul => a * b,
        BinOp::Div => a / b,
    }
}

/// The sum of the first `n` products `a[i] * b[i]`, accumulated left to right
/// starting from zero.
pub open spec fn dot_spec<T: Scalar>(a: Seq<T>, b: Seq<T>, n: nat) -> T
    decreases n,
{
    if n == 0 {
        zero::<T>()
    } else {
        dot_spec(a, b, (n - 1) as nat).add_spec(a[n - 1].mul_spec(b[n - 1]))
    }
}

/// Whether every multiplication and addition of `dot_spec(a, b, n)` may be evaluated.
pub open spec fn dot_req<T: Scalar>(a: Seq<T>, b: Seq<T>, n: nat) -> bool
    decreases n,
{
    n > 0 ==> {
        &&& dot_req(a, b, (n - 1) as nat)
        &&& a[n - 1].mul_req(b[n - 1])
        &&& dot_spec(a, b, (n - 1) as nat).add_req(a[n - 1].mul_spec(b[n - 1]))
    }
}

/// A dot product that may be evaluated up to `n` may be evaluated up to any `k <= n`.
pub proof fn lemma_dot_req_prefix<T: Scalar>(a: Seq<T>, b: Seq<T>, n: nat, k: nat)
    requires
        dot_req(a, b, n),
        k <= n,
    ensures
        dot_req(a, b, k),
    decreases n,
{
    if k < n {
        lemma_dot_req_prefix(a, b, (n - 1) as nat, k);
    }
}

/// `acc + term` or `acc - term`.
pub open spec fn pm_spec<T: Scalar>(acc: T, term: T, plus: bool) -> T {
    if plus {
        acc.add_spec(term)
    } else {
        acc.sub_spec(term)
    }
}

/// Whether `acc + term`, or `acc - term`, may be evaluated.
pub open spec fn pm_req<T: Scalar>(acc: T, term: T, plus: bool) -> bool {
    if plus {
        acc.add_req(term)
    } else {
        acc.sub_req(term)
    }
}

/// Zero and one behave as the neutral and absorbing elements they are named
/// after. This holds of the integers; it fails for scalars with infinities or
/// signed zeros.
pub open spec fn unit_laws<T: Scalar>() -> bool {
    &&& forall|x: T| #[trigger] zero::<T>().add_spec(x) == x
    &&& forall|x: T| #[trigger] x.add_spec(zero::<T>()) == x
    &&& forall|x: T| #[trigger] x.sub_spec(zero::<T>()) == x
    &&& forall|x: T| #[trigger] one::<T>().mul_spec(x) == x
    &&& forall|x: T| #[trigger] x.mul_spec(one::<T>()) == x
    &&& forall|x: T| #[trigger] zero::<T>().mul_spec(x) == zero::<T>()
    &&& forall|x: T| #[trigger] x.mul_spec(zero::<T>()) == zero::<T>()
}

/// Zero and one behave as neutral and absorbing elements towards `x`. For a
/// scalar with infinities this holds of its finite values at most.
pub open spec fn unit_laws_at<T: Scalar>(x: T) -> bool {
    &&& zero::<T>().add_spec(x) == x
    &&& x.add_spec(zero::<T>()) == x
    &&& x.sub_spec(zero::<T>()) == x
    &&& one::<T>().mul_spec(x) == x
    &&& x.mul_spec(one::<T>()) == x
    &&& zero::<T>().mul_spec(x) == zero::<T>()
    &&& x.mul_spec(zero::<T>()) == zero::<T>()
}

/// Where the unit laws hold, they hold towards every value.
pub proof fn lemma_unit_laws_at<T: Scalar>(x: T)
    requires
        unit_laws::<T>(),
    ensures
        unit_laws_at(x),
{
}

/// The 64-bit integers satisfy the unit laws.
pub proof fn lemma_i64_unit_laws()
    ensures
        unit_laws::<i64>(),
        obeys_scalar_spec::<i64>(),
{
    assert forall|x: i64| #[trigger] zero::<i64>().add_spec(x) == x by {}
    assert forall|x: i64| #[trigger] x.add_spec(zero::<i64>()) == x by {}
    assert forall|x: i64| #[trigger] x.sub_spec(zero::<i64>()) == x by {}
    assert forall|x: i64| #[trigger] one::<i64>().mul_spec(x) == x by {
        assert(1 * x == x) by (nonlinear_arith);
    }
    assert forall|x: i64| #[trigger] x.mul_spec(one::<i64>()) == x by {
        assert(x * 1 == x) by (nonlinear_arith);
    }
    assert forall|x: i64| #[trigger] zero::<i64>().mul_spec(x) == zero::<i64>() by {
        assert(0 * x == 0) by (nonlinear_arith);
    }
    assert forall|x: i64| #[trigger] x.mul_spec(zero::<i64>()) == zero::<i64>() by {
        assert(x * 0 == 0) by (nonlinear_arith);
    }
}

} // verus!
