//! Fixed-size row-major matrices.
use crate::math::scalar::{dot_req, dot_spec, obeys_scalar_spec, one, zero, BinOp, Scalar};
use crate::math::vector::{
    dot_arrays, map_array, map_req, map_spec, zip_arrays, zip_req, zip_spec, Vector,
};
use vstd::prelude::*;
use vstd::std_specs::ops::{AddSpecImpl, MulSpecImpl, SubSpecImpl};

verus! {

/// A matrix with three rows and three columns.
pub type Matrix3x3<T> = Matrix<T, 3, 3>;

/// A matrix with four rows and four columns.
pub type Matrix4x4<T> = Matrix<T, 4, 4>;

/// A matrix with three rows and three columns.
pub type Mat3<T> = Matrix<T, 3, 3>;

/// A matrix with four rows and four columns.
pub type Mat4<T> = Matrix<T, 4, 4>;

/// `Y` rows of `X` components each, stored row by row.
#[derive(PartialEq, Clone, Copy, Debug)]
pub struct Matrix<T, const X: usize, const Y: usize>(pub [[T; X]; Y]);

/// The rows of a nested array, each as a sequence.
pub open spec fn rows_view<T, const X: usize, const Y: usize>(a: [[T; X]; Y]) -> Seq<Seq<T>> {
    Seq::new(Y as nat, |y: int| a[y]@)
}

impl<T, const X: usize, const Y: usize> View for Matrix<T, X, Y> {
    type V = Seq<Seq<T>>;

    open spec fn view(&self) -> Seq<Seq<T>> {
        rows_view(self.0)
    }
}

/// Column `x` of a matrix given by its rows.
pub open spec fn column<T>(m: Seq<Seq<T>>, x: int) -> Seq<T> {
    Seq::new(m.len(), |y: int| m[y][x])
}

/// The transpose of a matrix with `cols` columns: row `x` of the result is
/// column `x` of `m`.
pub open spec fn transpose_spec<T>(m: Seq<Seq<T>>, cols: nat) -> Seq<Seq<T>> {
    Seq::new(cols, |x: int| column(m, x))
}

/// The rows of `a` and `b` combined component by component.
pub open spec fn zip_rows_spec<T: Scalar>(
    op: BinOp,
    a: Seq<Seq<T>>,
    b: Seq<Seq<T>>,
    cols: nat,
) -> Seq<Seq<T>> {
    Seq::new(a.len(), |y: int| zip_spec(op, a[y], b[y], cols))
}

/// Whether each componentwise operation of `zip_rows_spec` may be evaluated.
pub open spec fn zip_rows_req<T: Scalar>(
    op: BinOp,
    a: Seq<Seq<T>>,
    b: Seq<Seq<T>>,
    cols: nat,
) -> bool {
    forall|y: int| 0 <= y < a.len() ==> zip_req(op, #[trigger] a[y], b[y], cols)
}

/// Every component of `a` combined with the scalar `s` on the right.
pub open spec fn map_rows_spec<T: Scalar>(op: BinOp, a: Seq<Seq<T>>, s: T, cols: nat) -> Seq<
    Seq<T>,
> {
    Seq::new(a.len(), |y: int| map_spec(op, a[y], s, cols))
}

/// Whether each operation of `map_rows_spec` may be evaluated.
pub open spec fn map_rows_req<T: Scalar>(op: BinOp, a: Seq<Seq<T>>, s: T, cols: nat) -> bool {
    forall|y: int| 0 <= y < a.len() ==> map_req(op, #[trigger] a[y], s, cols)
}

/// The matrix-vector product: component `y` is the dot product of row `y` with `v`.
pub open spec fn mat_vec_spec<T: Scalar>(m: Seq<Seq<T>>, v: Seq<T>, cols: nat) -> Seq<T> {
    Seq::new(m.len(), |y: int| dot_spec(m[y], v, cols))
}

/// Whether each dot product of `mat_vec_spec` may be evaluated.
pub open spec fn mat_vec_req<T: Scalar>(m: Seq<Seq<T>>, v: Seq<T>, cols: nat) -> bool {
    forall|y: int| 0 <= y < m.len() ==> dot_req(#[trigger] m[y], v, cols)
}

/// The matrix product: entry `[y][x]` is the dot product of row `y` of `a`
/// with column `x` of `b`, summed over the `inner` shared dimension.
pub open spec fn mat_mul_spec<T: Scalar>(
    a: Seq<Seq<T>>,
    b: Seq<Seq<T>>,
    inner: nat,
    cols: nat,
) -> Seq<Seq<T>> {
    Seq::new(a.len(), |y: int| Seq::new(cols, |x: int| dot_spec(a[y], column(b, x), inner)))
}

/// Whether each dot product of `mat_mul_spec` may be evaluated.
pub open spec fn mat_mul_req<T: Scalar>(
    a: Seq<Seq<T>>,
    b: Seq<Seq<T>>,
    inner: nat,
    cols: nat,
) -> bool {
    forall|y: int, x: int|
        0 <= y < a.len() && 0 <= x < cols ==> dot_req(
            #[trigger] a[y],
            #[trigger] column(b, x),
            inner,
        )
}

/// The identity matrix of size `n`.
pub open spec fn identity_spec<T: Scalar>(n: nat) -> Seq<Seq<T>> {
    Seq::new(
        n,
        |y: int|
            Seq::new(
                n,
                |x: int|
                    if x == y {
                        one::<T>()
                    } else {
                        zero::<T>()
                    },
            ),
    )
}

/// The matrix that translates by `v`: the identity with `v` in its last column.
pub open spec fn translation_spec<T: Scalar>(v: Seq<T>) -> Seq<Seq<T>> {
    seq![
        seq![one::<T>(), zero::<T>(), zero::<T>(), v[0]],
        seq![zero::<T>(), one::<T>(), zero::<T>(), v[1]],
        seq![zero::<T>(), zero::<T>(), one::<T>(), v[2]],
        seq![zero::<T>(), zero::<T>(), zero::<T>(), one::<T>()],
    ]
}

/// A 4x4 matrix flattened column by column: position `4*x + y` holds entry `[y][x]`.
pub open spec fn gl_slice_spec<T>(m: Seq<Seq<T>>) -> Seq<T> {
    Seq::new(16, |i: int| m[i % 4][i / 4])
}

/// Transposes a nested array.
pub fn transpose_arrays<T: Scalar, const X: usize, const Y: usize>(m: &[[T; X]; Y]) -> (r: [[T;
    Y]; X])
    ensures
        rows_view(r) == transpose_spec(rows_view(*m), X as nat),
{
    let mut r = [[T::from(0i8); Y]; X];
    let mut y: usize = 0;
    while y < Y
        invariant
            0 <= y <= Y,
            forall|j: int, k: int| 0 <= j < X && 0 <= k < y ==> #[trigger] r[j][k] == m[k][j],
        decreases Y - y,
    {
        let mut x: usize = 0;
        while x < X
            invariant
                0 <= y < Y,
                0 <= x <= X,
                forall|j: int, k: int| 0 <= j < X && 0 <= k < y ==> #[trigger] r[j][k] == m[k][j],
                forall|j: int| 0 <= j < x ==> #[trigger] r[j][y as int] == m[y as int][j],
            decreases X - x,
        {
            r[x][y] = m[y][x];
            x += 1;
        }
        y += 1;
    }
    proof {
        let t = transpose_spec(rows_view(*m), X as nat);
        assert forall|x: int| 0 <= x < X implies #[trigger] rows_view(r)[x] =~= t[x] by {
            assert forall|k: int| 0 <= k < Y implies rows_view(r)[x][k] == t[x][k] by {
                assert(r[x][k] == m[k][x]);
            }
        }
        assert(rows_view(r) =~= t);
    }
    r
}

impl<T: Scalar, const X: usize, const Y: usize> Matrix<T, X, Y> {
    /// Wraps the rows.
    pub fn from_arrays(arr: [[T; X]; Y]) -> (r: Self)
        ensures
            r.0 == arr,
    {
        Self(arr)
    }

    /// The transpose, as nested arrays: the layout in which a column-major
    /// consumer reads the matrix. A pure reshuffle of the components.
    pub fn column_major(&self) -> (r: [[T; Y]; X])
        ensures
            rows_view(r) == transpose_spec(self@, X as nat),
    {
        transpose_arrays(&self.0)
    }

    /// The transpose, as nested arrays; another name for `column_major`.
    pub fn as_column_major(&self) -> (r: [[T; Y]; X])
        ensures
            rows_view(r) == transpose_spec(self@, X as nat),
    {
        transpose_arrays(&self.0)
    }

    /// The transposed matrix.
    pub fn transposed(&self) -> (r: Matrix<T, Y, X>)
        ensures
            r@ == transpose_spec(self@, X as nat),
    {
        Matrix(transpose_arrays(&self.0))
    }
}

/// Combines two nested arrays component by component.
pub fn zip_rows<T: Scalar, const X: usize, const Y: usize>(
    op: BinOp,
    a: &[[T; X]; Y],
    b: &[[T; X]; Y],
) -> (r: [[T; X]; Y])
    requires
        zip_rows_req(op, rows_view(*a), rows_view(*b), X as nat),
    ensures
        obeys_scalar_spec::<T>() ==> rows_view(r) == zip_rows_spec(
            op,
            rows_view(*a),
            rows_view(*b),
            X as nat,
        ),
{
    let mut r = *a;
    let mut y: usize = 0;
    while y < Y
        invariant
            0 <= y <= Y,
            zip_rows_req(op, rows_view(*a), rows_view(*b), X as nat),
            obeys_scalar_spec::<T>() ==> forall|k: int|
                0 <= k < y ==> (#[trigger] r[k])@ == zip_spec(op, a[k]@, b[k]@, X as nat),
        decreases Y - y,
    {
        assert(rows_view(*a)[y as int] == a[y as int]@);
        assert(rows_view(*b)[y as int] == b[y as int]@);
        r[y] = zip_arrays(op, &a[y], &b[y]);
        y += 1;
    }
    assert(obeys_scalar_spec::<T>() ==> rows_view(r) =~= zip_rows_spec(
        op,
        rows_view(*a),
        rows_view(*b),
        X as nat,
    ));
    r
}

impl<T: Scalar, const N: usize> Matrix<T, N, N> {
    /// The identity matrix: ones on the diagonal, zeros elsewhere.
    pub fn identity() -> (r: Self)
        ensures
            obeys_scalar_spec::<T>() ==> r@ == identity_spec::<T>(N as nat),
    {
        let mut r = [[T::from(0i8); N]; N];
        let mut i: usize = 0;
        while i < N
            invariant
                0 <= i <= N,
                obeys_scalar_spec::<T>() ==> forall|y: int, x: int|
                    0 <= y < N && 0 <= x < N ==> #[trigger] r[y][x] == (if x == y && y < i {
                        one::<T>()
                    } else {
                        zero::<T>()
                    }),
            decreases N - i,
        {
            r[i][i] = T::from(1i8);
            i += 1;
        }
        proof {
            if obeys_scalar_spec::<T>() {
                let id = identity_spec::<T>(N as nat);
                assert forall|y: int| 0 <= y < N implies #[trigger] rows_view(r)[y] =~= id[y] by {
                    assert forall|x: int| 0 <= x < N implies rows_view(r)[y][x] == id[y][x] by {
                        assert(r[y][x] == if x == y {
                            one::<T>()
                        } else {
                            zero::<T>()
                        });
                    }
                }
                assert(rows_view(r) =~= id);
            }
        }
        Self(r)
    }
}

impl<T: Scalar> Matrix<T, 4, 4> {
    /// The matrix that translates by `v`.
    pub fn translation_mat(v: Vector<T, 3>) -> (r: Self)
        ensures
            obeys_scalar_spec::<T>() ==> r@ == translation_spec(v@),
    {
        let o = T::from(0i8);
        let i = T::from(1i8);
        let r = Self(
            [[i, o, o, v.0[0]], [o, i, o, v.0[1]], [o, o, i, v.0[2]], [o, o, o, i]],
        );
        proof {
            if obeys_scalar_spec::<T>() {
                let t = translation_spec(v@);
                assert(r@[0] =~= t[0]);
                assert(r@[1] =~= t[1]);
                assert(r@[2] =~= t[2]);
                assert(r@[3] =~= t[3]);
                assert(r@ =~= t);
            }
        }
        r
    }

    /// The sixteen components in column-major order, as a graphics API reads them.
    pub fn as_gl_slice(&self) -> (r: [T; 16])
        ensures
            r@ == gl_slice_spec(self@),
    {
        let m = &self.0;
        let r = [
            m[0][0],
            m[1][0],
            m[2][0],
            m[3][0],
            m[0][1],
            m[1][1],
            m[2][1],
            m[3][1],
            m[0][2],
            m[1][2],
            m[2][2],
            m[3][2],
            m[0][3],
            m[1][3],
            m[2][3],
            m[3][3],
        ];
        assert(r@ =~= gl_slice_spec(self@));
        r
    }
}

impl<T: Scalar, const X: usize, const Y: usize> AddSpecImpl for Matrix<T, X, Y> {
    open spec fn obeys_add_spec() -> bool {
        false
    }

    open spec fn add_req(self, rhs: Self) -> bool {
        zip_rows_req(BinOp::Add, self@, rhs@, X as nat)
    }

    open spec fn add_spec(self, rhs: Self) -> Self {
        self
    }
}

impl<T: Scalar, const X: usize, const Y: usize> core::ops::Add for Matrix<T, X, Y> {
    type Output = Self;

    /// The componentwise sum.
    fn add(self, rhs: Self) -> (r: Self)
        ensures
            obeys_scalar_spec::<T>() ==> r@ == zip_rows_spec(BinOp::Add, self@, rhs@, X as nat),
    {
        Self(zip_rows(BinOp::Add, &self.0, &rhs.0))
    }
}

impl<T: Scalar, const X: usize, const Y: usize> SubSpecImpl for Matrix<T, X, Y> {
    open spec fn obeys_sub_spec() -> bool {
        false
    }

    open spec fn sub_req(self, rhs: Self) -> bool {
        zip_rows_req(BinOp::Sub, self@, rhs@, X as nat)
    }

    open spec fn sub_spec(self, rhs: Self) -> Self {
        self
    }
}

impl<T: Scalar, const X: usize, const Y: usize> core::ops::Sub for Matrix<T, X, Y> {
    type Output = Self;

    /// The componentwise difference.
    fn sub(self, rhs: Self) -> (r: Self)
        ensures
            obeys_scalar_spec::<T>() ==> r@ == zip_rows_spec(BinOp::Sub, self@, rhs@, X as nat),
    {
        Self(zip_rows(BinOp::Sub, &self.0, &rhs.0))
    }
}

impl<T: Scalar, const X: usize, const Y: usize> MulSpecImpl<T> for Matrix<T, X, Y> {
    open spec fn obeys_mul_spec() -> bool {
        false
    }

    open spec fn mul_req(self, rhs: T) -> bool {
        map_rows_req(BinOp::Mul, self@, rhs, X as nat)
    }

    open spec fn mul_spec(self, rhs: T) -> Self {
        self
    }
}

impl<T: Scalar, const X: usize, const Y: usize> core::ops::Mul<T> for Matrix<T, X, Y> {
    type Output = Self;

    /// Every component multiplied by the scalar `rhs`.
    fn mul(self, rhs: T) -> (r: Self)
        ensures
            obeys_scalar_spec::<T>() ==> r@ == map_rows_spec(BinOp::Mul, self@, rhs, X as nat),
    {
        let mut r = self.0;
        let mut y: usize = 0;
        while y < Y
            invariant
                0 <= y <= Y,
                map_rows_req(BinOp::Mul, self@, rhs, X as nat),
                obeys_scalar_spec::<T>() ==> forall|k: int|
                    0 <= k < y ==> (#[trigger] r[k])@ == map_spec(
                        BinOp::Mul,
                        self.0[k]@,
                        rhs,
                        X as nat,
                    ),
            decreases Y - y,
        {
            assert(self@[y as int] == self.0[y as int]@);
            r[y] = map_array(BinOp::Mul, &self.0[y], rhs);
            y += 1;
        }
        assert(obeys_scalar_spec::<T>() ==> rows_view(r) =~= map_rows_spec(
            BinOp::Mul,
            self@,
            rhs,
            X as nat,
        ));
        Self(r)
    }
}

impl<T: Scalar, const X: usize, const Y: usize> MulSpecImpl<Vector<T, X>> for Matrix<T, X, Y> {
    open spec fn obeys_mul_spec() -> bool {
        false
    }

    open spec fn mul_req(self, rhs: Vector<T, X>) -> bool {
        obeys_scalar_spec::<T>() && mat_vec_req(self@, rhs@, X as nat)
    }

    open spec fn mul_spec(self, rhs: Vector<T, X>) -> Vector<T, Y> {
        arbitrary()
    }
}

impl<T: Scalar, const X: usize, const Y: usize> core::ops::Mul<Vector<T, X>> for Matrix<T, X, Y> {
    type Output = Vector<T, Y>;

    /// The matrix-vector product: component `y` is the dot product of row `y` with `rhs`.
    fn mul(self, rhs: Vector<T, X>) -> (r: Vector<T, Y>)
        ensures
            r@ == mat_vec_spec(self@, rhs@, X as nat),
    {
        let mut r = [T::from(0i8); Y];
        let mut y: usize = 0;
        while y < Y
            invariant
                0 <= y <= Y,
                obeys_scalar_spec::<T>(),
                mat_vec_req(self@, rhs@, X as nat),
                forall|k: int| 0 <= k < y ==> #[trigger] r@[k] == dot_spec(self.0[k]@, rhs@, X as nat),
            decreases Y - y,
        {
            assert(self@[y as int] == self.0[y as int]@);
            r[y] = dot_arrays(&self.0[y], &rhs.0);
            y += 1;
        }
        assert(r@ =~= mat_vec_spec(self@, rhs@, X as nat));
        Vector(r)
    }
}

impl<T: Scalar, const X: usize, const Y: usize, const Z: usize> MulSpecImpl<
    Matrix<T, Z, X>,
> for Matrix<T, X, Y> {
    open spec fn obeys_mul_spec() -> bool {
        false
    }

    open spec fn mul_req(self, rhs: Matrix<T, Z, X>) -> bool {
        obeys_scalar_spec::<T>() && mat_mul_req(self@, rhs@, X as nat, Z as nat)
    }

    open spec fn mul_spec(self, rhs: Matrix<T, Z, X>) -> Matrix<T, Z, Y> {
        arbitrary()
    }
}

impl<T: Scalar, const X: usize, const Y: usize, const Z: usize> core::ops::Mul<
    Matrix<T, Z, X>,
> for Matrix<T, X, Y> {
    type Output = Matrix<T, Z, Y>;

    /// The matrix product, row by column: entry `[y][x]` sums `self[y][k] * rhs[k][x]` over `k`.
    fn mul(self, rhs: Matrix<T, Z, X>) -> (r: Matrix<T, Z, Y>)
        ensures
            r@ == mat_mul_spec(self@, rhs@, X as nat, Z as nat),
    {
        let columns = transpose_arrays(&rhs.0);
        let mut r = [[T::from(0i8); Z]; Y];
        let mut y: usize = 0;
        while y < Y
            invariant
                0 <= y <= Y,
                obeys_scalar_spec::<T>(),
                mat_mul_req(self@, rhs@, X as nat, Z as nat),
                rows_view(columns) == transpose_spec(rhs@, Z as nat),
                forall|k: int, x: int|
                    0 <= k < y && 0 <= x < Z ==> #[trigger] r[k][x] == dot_spec(
                        self@[k],
                        column(rhs@, x),
                        X as nat,
                    ),
            decreases Y - y,
        {
            let mut x: usize = 0;
            while x < Z
                invariant
                    0 <= y < Y,
                    0 <= x <= Z,
                    obeys_scalar_spec::<T>(),
                    mat_mul_req(self@, rhs@, X as nat, Z as nat),
                    rows_view(columns) == transpose_spec(rhs@, Z as nat),
                    forall|k: int, j: int|
                        0 <= k < y && 0 <= j < Z ==> #[trigger] r[k][j] == dot_spec(
                            self@[k],
                            column(rhs@, j),
                            X as nat,
                        ),
                    forall|j: int|
                        0 <= j < x ==> #[trigger] r[y as int][j] == dot_spec(
                            self@[y as int],
                            column(rhs@, j),
                            X as nat,
                        ),
                decreases Z - x,
            {
                assert(self@[y as int] == self.0[y as int]@);
                assert(rows_view(columns)[x as int] == columns[x as int]@);
                assert(columns[x as int]@ == column(rhs@, x as int));
                r[y][x] = dot_arrays(&self.0[y], &columns[x]);
                x += 1;
            }
            y += 1;
        }
        proof {
            let p = mat_mul_spec(self@, rhs@, X as nat, Z as nat);
            assert forall|k: int| 0 <= k < Y implies #[trigger] rows_view(r)[k] =~= p[k] by {
                assert forall|x: int| 0 <= x < Z implies rows_view(r)[k][x] == p[k][x] by {
                    assert(r[k][x] == dot_spec(self@[k], column(rhs@, x), X as nat));
                }
            }
            assert(rows_view(r) =~= p);
        }
        Matrix(r)
    }
}

} // verus!
