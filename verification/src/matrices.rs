//! Fixed-size square matrices, 3x3 and 4x4, over an abstract scalar:
//! cofactor-based determinants and minors, transposition, elementwise sums
//! and differences, the matrix product, adjugate-based inversion and the
//! matrix-vector product.
//!
//! A matrix is viewed as a row-major sequence of mathematical integers, and
//! every contract is stated over that view. The 4x4 minor delegates to the
//! 3x3 determinant, so the 3x3 grid is a true dependency of the 4x4 one.

use vstd::prelude::*;
use crate::types::{in_range, tdiv, lemma_tdiv_bounds, lemma_tdiv_unit, Scalar};
use crate::vectors::{
    diff_within, dot3, dot3_ok, dot4, dot4_ok, seq_add, seq_neg, seq_scale, seq_sub, seq_within,
    zero_seq, Vector3D, Vector4D,
};

verus! {

// ---------------------------------------------------------------------------
// The spec layer for 3x3 grids.
// ---------------------------------------------------------------------------

/// The cell of a row-major 3x3 grid at row `i`, column `j`.
pub open spec fn idx3(m: Seq<int>, i: int, j: int) -> int
    recommends
        m.len() == 9,
        0 <= i < 3,
        0 <= j < 3,
{
    m[i * 3 + j]
}

/// The 3x3 identity grid.
pub open spec fn ident3() -> Seq<int> {
    seq![1, 0, 0, 0, 1, 0, 0, 0, 1]
}

/// The row-major sequence a 3x3 literal grid stands for.
pub open spec fn grid3_seq<T: Scalar>(data: [[T; 3]; 3]) -> Seq<int> {
    seq![
        data@[0]@[0].sval(),
        data@[0]@[1].sval(),
        data@[0]@[2].sval(),
        data@[1]@[0].sval(),
        data@[1]@[1].sval(),
        data@[1]@[2].sval(),
        data@[2]@[0].sval(),
        data@[2]@[1].sval(),
        data@[2]@[2].sval(),
    ]
}

/// Row `i` of a 3x3 grid, as a 3-component vector.
pub open spec fn row3(m: Seq<int>, i: int) -> Seq<int>
    recommends
        m.len() == 9,
        0 <= i < 3,
{
    seq![m[i * 3], m[i * 3 + 1], m[i * 3 + 2]]
}

/// Column `j` of a 3x3 grid, as a 3-component vector.
pub open spec fn col3(m: Seq<int>, j: int) -> Seq<int>
    recommends
        m.len() == 9,
        0 <= j < 3,
{
    seq![m[j], m[3 + j], m[6 + j]]
}

/// The transpose of a 3x3 grid.
pub open spec fn transpose3(m: Seq<int>) -> Seq<int>
    recommends
        m.len() == 9,
{
    Seq::new(9, |k: int| idx3(m, k % 3, k / 3))
}

/// The determinant of a 3x3 grid: the closed-form six-term expansion.
pub open spec fn det3(m: Seq<int>) -> int
    recommends
        m.len() == 9,
{
    m[0] * m[4] * m[8] + m[1] * m[5] * m[6] + m[2] * m[3] * m[7] - m[2] * m[4] * m[6] - m[1] * m[3]
        * m[8] - m[0] * m[5] * m[7]
}

/// The lower of the two row (or column) indices of a 3x3 grid that remain
/// after deleting index `i`.
pub open spec fn keep_lo(i: int) -> int {
    if i == 0 {
        1
    } else {
        0
    }
}

/// The higher of the two row (or column) indices that remain after
/// deleting index `i`.
pub open spec fn keep_hi(i: int) -> int {
    if i == 2 {
        1
    } else {
        2
    }
}

/// The minor of a 3x3 grid at (i, j): the determinant of the 2x2 grid that
/// remains after deleting row `i` and column `j`, its cells read in
/// row-major order.
pub open spec fn minor3(m: Seq<int>, i: int, j: int) -> int
    recommends
        m.len() == 9,
        0 <= i < 3,
        0 <= j < 3,
{
    idx3(m, keep_lo(i), keep_lo(j)) * idx3(m, keep_hi(i), keep_hi(j)) - idx3(
        m,
        keep_lo(i),
        keep_hi(j),
    ) * idx3(m, keep_hi(i), keep_lo(j))
}

/// The signed cofactor at (i, j) used by the adjugate: positive when
/// `i + j` is even, negative when odd, of the transposed-index minor.
pub open spec fn cof3(m: Seq<int>, i: int, j: int) -> int
    recommends
        m.len() == 9,
        0 <= i < 3,
        0 <= j < 3,
{
    if (i + j) % 2 == 0 {
        minor3(m, j, i)
    } else {
        -minor3(m, j, i)
    }
}

/// The matrix product of two 3x3 grids: cell (i, j) is the dot product of
/// row `i` of the left grid with column `j` of the right one.
pub open spec fn matmul3(a: Seq<int>, b: Seq<int>) -> Seq<int>
    recommends
        a.len() == 9,
        b.len() == 9,
{
    Seq::new(9, |k: int| dot3(row3(a, k / 3), col3(b, k % 3)))
}

/// The matrix-vector product of a 3x3 grid: component `i` is the dot
/// product of the input vector with row `i`.
pub open spec fn mulvec3(m: Seq<int>, v: Seq<int>) -> Seq<int>
    recommends
        m.len() == 9,
        v.len() == 3,
{
    seq![dot3(v, row3(m, 0)), dot3(v, row3(m, 1)), dot3(v, row3(m, 2))]
}

/// The inverse of a 3x3 grid with determinant `det3(m)`: the adjugate,
/// cell by cell, divided by the determinant with truncating division.
pub open spec fn inv3(m: Seq<int>) -> Seq<int>
    recommends
        m.len() == 9,
        det3(m) != 0,
{
    Seq::new(9, |k: int| tdiv(cof3(m, k / 3, k % 3), det3(m)))
}

// ---------------------------------------------------------------------------
// Range predicates for the 3x3 algorithms: every intermediate value of the
// computation, taken in evaluation order, is representable in `T`.
// ---------------------------------------------------------------------------

/// Each cell of the elementwise sum of two 3x3 grids is representable.
pub open spec fn grid3_add_ok<T: Scalar>(m: Seq<int>, o: Seq<int>) -> bool
    recommends
        m.len() == 9,
        o.len() == 9,
{
    &&& in_range::<T>(m[0] + o[0])
    &&& in_range::<T>(m[1] + o[1])
    &&& in_range::<T>(m[2] + o[2])
    &&& in_range::<T>(m[3] + o[3])
    &&& in_range::<T>(m[4] + o[4])
    &&& in_range::<T>(m[5] + o[5])
    &&& in_range::<T>(m[6] + o[6])
    &&& in_range::<T>(m[7] + o[7])
    &&& in_range::<T>(m[8] + o[8])
}

/// Each cell of the elementwise difference of two 3x3 grids is
/// representable.
pub open spec fn grid3_sub_ok<T: Scalar>(m: Seq<int>, o: Seq<int>) -> bool
    recommends
        m.len() == 9,
        o.len() == 9,
{
    &&& in_range::<T>(m[0] - o[0])
    &&& in_range::<T>(m[1] - o[1])
    &&& in_range::<T>(m[2] - o[2])
    &&& in_range::<T>(m[3] - o[3])
    &&& in_range::<T>(m[4] - o[4])
    &&& in_range::<T>(m[5] - o[5])
    &&& in_range::<T>(m[6] - o[6])
    &&& in_range::<T>(m[7] - o[7])
    &&& in_range::<T>(m[8] - o[8])
}

/// Every intermediate value of the six-term determinant expansion, taken in
/// evaluation order, is representable.
pub open spec fn det3_ok<T: Scalar>(m: Seq<int>) -> bool
    recommends
        m.len() == 9,
{
    let p1 = m[0] * m[4] * m[8];
    let p2 = m[1] * m[5] * m[6];
    let p3 = m[2] * m[3] * m[7];
    let p4 = m[2] * m[4] * m[6];
    let p5 = m[1] * m[3] * m[8];
    let p6 = m[0] * m[5] * m[7];
    &&& in_range::<T>(m[0] * m[4])
    &&& in_range::<T>(m[1] * m[5])
    &&& in_range::<T>(m[2] * m[3])
    &&& in_range::<T>(m[2] * m[4])
    &&& in_range::<T>(m[1] * m[3])
    &&& in_range::<T>(m[0] * m[5])
    &&& in_range::<T>(p1)
    &&& in_range::<T>(p2)
    &&& in_range::<T>(p3)
    &&& in_range::<T>(p4)
    &&& in_range::<T>(p5)
    &&& in_range::<T>(p6)
    &&& in_range::<T>(p1 + p2)
    &&& in_range::<T>(p1 + p2 + p3)
    &&& in_range::<T>(p1 + p2 + p3 - p4)
    &&& in_range::<T>(p1 + p2 + p3 - p4 - p5)
    &&& in_range::<T>(p1 + p2 + p3 - p4 - p5 - p6)
}

/// Every intermediate value of the 2x2 minor computation is representable.
pub open spec fn minor3_ok<T: Scalar>(m: Seq<int>, i: int, j: int) -> bool
    recommends
        m.len() == 9,
        0 <= i < 3,
        0 <= j < 3,
{
    let p1 = idx3(m, keep_lo(i), keep_lo(j)) * idx3(m, keep_hi(i), keep_hi(j));
    let p2 = idx3(m, keep_lo(i), keep_hi(j)) * idx3(m, keep_hi(i), keep_lo(j));
    &&& in_range::<T>(p1)
    &&& in_range::<T>(p2)
    &&& in_range::<T>(p1 - p2)
}

/// Every cell of the matrix product of two 3x3 grids can be computed
/// without leaving the representable range.
pub open spec fn matmul3_ok<T: Scalar>(a: Seq<int>, b: Seq<int>) -> bool
    recommends
        a.len() == 9,
        b.len() == 9,
{
    forall|i: int, j: int|
        0 <= i < 3 && 0 <= j < 3 ==> #[trigger] dot3_ok::<T>(row3(a, i), col3(b, j))
}

/// Every component of the matrix-vector product of a 3x3 grid can be
/// computed without leaving the representable range.
pub open spec fn mulvec3_ok<T: Scalar>(m: Seq<int>, v: Seq<int>) -> bool
    recommends
        m.len() == 9,
        v.len() == 3,
{
    forall|i: int| 0 <= i < 3 ==> #[trigger] dot3_ok::<T>(v, row3(m, i))
}

/// Everything the adjugate-based 3x3 inversion computes stays
/// representable: the determinant expansion, every minor, and every negated
/// minor.
pub open spec fn inv3_ok<T: Scalar>(m: Seq<int>) -> bool
    recommends
        m.len() == 9,
{
    &&& det3_ok::<T>(m)
    &&& forall|i: int, j: int| 0 <= i < 3 && 0 <= j < 3 ==> #[trigger] minor3_ok::<T>(m, i, j)
    &&& forall|i: int, j: int|
        0 <= i < 3 && 0 <= j < 3 ==> in_range::<T>(-(#[trigger] minor3(m, i, j)))
}

// ---------------------------------------------------------------------------
// The 3x3 matrix.
// ---------------------------------------------------------------------------

#[derive(Debug, Clone, PartialEq)]
pub struct Matrix3x3<T: Scalar> {
    pub cells: [T; 9],
}

impl<T: Scalar> View for Matrix3x3<T> {
    type V = Seq<int>;

    open spec fn view(&self) -> Seq<int> {
        Seq::new(9, |k: int| self.cells@[k].sval())
    }
}

impl<T: Scalar> Matrix3x3<T> {
    /// The value a cell holds, as a scalar.
    pub open spec fn cell(self, i: int, j: int) -> T
        recommends
            0 <= i < 3,
            0 <= j < 3,
    {
        self.cells@[i * 3 + j]
    }

    /// Builds the matrix from a literal grid, row by row.
    pub fn new(data: [[T; 3]; 3]) -> (r: Self)
        ensures
            r@ =~= grid3_seq(data),
    {
        let r0 = data[0];
        let r1 = data[1];
        let r2 = data[2];
        Self { cells: [r0[0], r0[1], r0[2], r1[0], r1[1], r1[2], r2[0], r2[1], r2[2]] }
    }

    /// The matrix with every cell equal to the scalar zero.
    pub fn zero() -> (r: Self)
        ensures
            r@ =~= zero_seq(9),
    {
        let z = T::zero();
        Self { cells: [z, z, z, z, z, z, z, z, z] }
    }

    /// The number of rows and columns.
    pub fn dimensions(&self) -> (r: (usize, usize))
        ensures
            r == (3usize, 3usize),
    {
        (3, 3)
    }

    /// The identity matrix: ones on the diagonal, zeros elsewhere.
    pub fn identity() -> (r: Self)
        ensures
            r@ =~= ident3(),
    {
        let o = T::one();
        let z = T::zero();
        Self { cells: [o, z, z, z, o, z, z, z, o] }
    }

    /// Builds the matrix cell by cell from `f`: cell (i, j) holds a value
    /// `f` may return for (i, j).
    pub fn from_func<F: Fn(usize, usize) -> T>(f: F) -> (r: Self)
        requires
            forall|i: usize, j: usize| i < 3 && j < 3 ==> #[trigger] call_requires(f, (i, j)),
        ensures
            forall|i: usize, j: usize|
                i < 3 && j < 3 ==> call_ensures(f, (i, j), #[trigger] r.cell(i as int, j as int)),
    {
        let v00 = f(0, 0);
        let v01 = f(0, 1);
        let v02 = f(0, 2);
        let v10 = f(1, 0);
        let v11 = f(1, 1);
        let v12 = f(1, 2);
        let v20 = f(2, 0);
        let v21 = f(2, 1);
        let v22 = f(2, 2);
        let r = Self { cells: [v00, v01, v02, v10, v11, v12, v20, v21, v22] };
        proof {
            assert forall|i: usize, j: usize| i < 3 && j < 3 implies call_ensures(
                f,
                (i, j),
                #[trigger] r.cell(i as int, j as int),
            ) by {
                if i == 0 && j == 0 {
                    assert(r.cell(0, 0) == v00);
                } else if i == 0 && j == 1 {
                    assert(r.cell(0, 1) == v01);
                } else if i == 0 && j == 2 {
                    assert(r.cell(0, 2) == v02);
                } else if i == 1 && j == 0 {
                    assert(r.cell(1, 0) == v10);
                } else if i == 1 && j == 1 {
                    assert(r.cell(1, 1) == v11);
                } else if i == 1 && j == 2 {
                    assert(r.cell(1, 2) == v12);
                } else if i == 2 && j == 0 {
                    assert(r.cell(2, 0) == v20);
                } else if i == 2 && j == 1 {
                    assert(r.cell(2, 1) == v21);
                } else {
                    assert(r.cell(2, 2) == v22);
                }
            }
        }
        r
    }

    /// The cell at row `i`, column `j`; the indices are the caller's
    /// responsibility and both lie below 3.
    pub fn get_val(&self, i: usize, j: usize) -> (r: T)
        requires
            i < 3,
            j < 3,
        ensures
            r.sval() == idx3(self@, i as int, j as int),
            r == self.cell(i as int, j as int),
    {
        self.cells[i * 3 + j]
    }

    /// Row `i`, as a vector.
    fn row(&self, i: usize) -> (r: Vector3D<T>)
        requires
            i < 3,
        ensures
            r@ =~= row3(self@, i as int),
    {
        Vector3D { x: self.cells[i * 3], y: self.cells[i * 3 + 1], z: self.cells[i * 3 + 2] }
    }

    /// Column `j`, as a vector.
    fn col(&self, j: usize) -> (r: Vector3D<T>)
        requires
            j < 3,
        ensures
            r@ =~= col3(self@, j as int),
    {
        Vector3D { x: self.cells[j], y: self.cells[3 + j], z: self.cells[6 + j] }
    }

    /// The determinant, by the closed-form six-term expansion.
    pub fn determinant(&self) -> (r: T)
        requires
            det3_ok::<T>(self@),
        ensures
            r.sval() == det3(self@),
    {
        let a11 = self.cells[0];
        let a12 = self.cells[1];
        let a13 = self.cells[2];
        let a21 = self.cells[3];
        let a22 = self.cells[4];
        let a23 = self.cells[5];
        let a31 = self.cells[6];
        let a32 = self.cells[7];
        let a33 = self.cells[8];
        let p1 = a11.mul(a22).mul(a33);
        let p2 = a12.mul(a23).mul(a31);
        let p3 = a13.mul(a21).mul(a32);
        let p4 = a13.mul(a22).mul(a31);
        let p5 = a12.mul(a21).mul(a33);
        let p6 = a11.mul(a23).mul(a32);
        p1.add(p2).add(p3).sub(p4).sub(p5).sub(p6)
    }

    /// The minor at (i, j): the determinant of the 2x2 grid left after
    /// deleting row `i` and column `j`.
    pub fn minor(&self, i: usize, j: usize) -> (r: T)
        requires
            i < 3,
            j < 3,
            minor3_ok::<T>(self@, i as int, j as int),
        ensures
            r.sval() == minor3(self@, i as int, j as int),
    {
        let r0: usize = if i == 0 { 1 } else { 0 };
        let r1: usize = if i == 2 { 1 } else { 2 };
        let c0: usize = if j == 0 { 1 } else { 0 };
        let c1: usize = if j == 2 { 1 } else { 2 };
        let a = self.get_val(r0, c0);
        let b = self.get_val(r0, c1);
        let c = self.get_val(r1, c0);
        let d = self.get_val(r1, c1);
        a.mul(d).sub(b.mul(c))
    }

    /// The transpose: cell (i, j) holds cell (j, i) of the original.
    pub fn transposed(&self) -> (r: Self)
        ensures
            r@ =~= transpose3(self@),
    {
        let d = &self.cells;
        Self { cells: [d[0], d[3], d[6], d[1], d[4], d[7], d[2], d[5], d[8]] }
    }

    /// The elementwise sum.
    pub fn add(&self, other: &Self) -> (r: Self)
        requires
            grid3_add_ok::<T>(self@, other@),
        ensures
            r@ =~= seq_add(self@, other@),
    {
        let a = &self.cells;
        let b = &other.cells;
        Self {
            cells: [
                a[0].add(b[0]),
                a[1].add(b[1]),
                a[2].add(b[2]),
                a[3].add(b[3]),
                a[4].add(b[4]),
                a[5].add(b[5]),
                a[6].add(b[6]),
                a[7].add(b[7]),
                a[8].add(b[8]),
            ],
        }
    }

    /// The elementwise difference.
    pub fn sub(&self, other: &Self) -> (r: Self)
        requires
            grid3_sub_ok::<T>(self@, other@),
        ensures
            r@ =~= seq_sub(self@, other@),
    {
        let a = &self.cells;
        let b = &other.cells;
        Self {
            cells: [
                a[0].sub(b[0]),
                a[1].sub(b[1]),
                a[2].sub(b[2]),
                a[3].sub(b[3]),
                a[4].sub(b[4]),
                a[5].sub(b[5]),
                a[6].sub(b[6]),
                a[7].sub(b[7]),
                a[8].sub(b[8]),
            ],
        }
    }

    /// The matrix product (named after the vector cross product, but a
    /// plain matrix multiplication): cell (i, j) is the dot product of row
    /// `i` of `self` with column `j` of `other`.
    pub fn cross(&self, other: &Self) -> (r: Self)
        requires
            matmul3_ok::<T>(self@, other@),
        ensures
            r@ =~= matmul3(self@, other@),
    {
        let r0 = self.row(0);
        let r1 = self.row(1);
        let r2 = self.row(2);
        let c0 = other.col(0);
        let c1 = other.col(1);
        let c2 = other.col(2);
        Self {
            cells: [
                r0.dot(&c0),
                r0.dot(&c1),
                r0.dot(&c2),
                r1.dot(&c0),
                r1.dot(&c1),
                r1.dot(&c2),
                r2.dot(&c0),
                r2.dot(&c1),
                r2.dot(&c2),
            ],
        }
    }

    /// The inverse, when one exists. The matrix is singular exactly when
    /// its determinant is zero, and the scalars of this library are exact,
    /// so singularity is an exact-zero test; a singular matrix has no
    /// inverse and the result is absent. Otherwise cell (i, j) is the
    /// cofactor-signed minor at (j, i) divided by the determinant.
    pub fn inverse(&self) -> (r: Option<Self>)
        requires
            inv3_ok::<T>(self@),
        ensures
            match r {
                Some(inv) => det3(self@) != 0 && inv@ =~= inv3(self@),
                None => det3(self@) == 0,
            },
    {
        let det = self.determinant();
        let z = T::zero();
        if det.eq_val(z) {
            return None;
        }
        proof {
            assert forall|i: int, j: int| 0 <= i < 3 && 0 <= j < 3 implies in_range::<T>(
                tdiv(#[trigger] minor3(self@, i, j), det3(self@)),
            ) && in_range::<T>(tdiv(-minor3(self@, i, j), det3(self@))) by {
                assert(minor3_ok::<T>(self@, i, j));
                assert(in_range::<T>(minor3(self@, i, j)));
                assert(in_range::<T>(-minor3(self@, i, j)));
                lemma_tdiv_bounds(minor3(self@, i, j), det3(self@));
                lemma_tdiv_bounds(-minor3(self@, i, j), det3(self@));
            }
        }
        Some(
            Self {
                cells: [
                    self.minor(0, 0).div(det),
                    self.minor(1, 0).neg().div(det),
                    self.minor(2, 0).div(det),
                    self.minor(0, 1).neg().div(det),
                    self.minor(1, 1).div(det),
                    self.minor(2, 1).neg().div(det),
                    self.minor(0, 2).div(det),
                    self.minor(1, 2).neg().div(det),
                    self.minor(2, 2).div(det),
                ],
            },
        )
    }

    /// The matrix-vector product: component `i` of the result is the dot
    /// product of the input vector with row `i`.
    pub fn mul_vec(&self, v: &Vector3D<T>) -> (r: Vector3D<T>)
        requires
            mulvec3_ok::<T>(self@, v@),
        ensures
            r@ =~= mulvec3(self@, v@),
    {
        Vector3D { x: v.dot(&self.row(0)), y: v.dot(&self.row(1)), z: v.dot(&self.row(2)) }
    }

    /// Whether every pair of corresponding cells differs by at most `eps`
    /// in absolute value.
    pub fn precision_eq(&self, other: &Self, eps: T) -> (r: bool)
        requires
            grid3_sub_ok::<T>(self@, other@),
            grid3_sub_ok::<T>(other@, self@),
        ensures
            r <==> seq_within(self@, other@, eps.sval()),
    {
        let a = &self.cells;
        let b = &other.cells;
        let r = diff_within(a[0], b[0], eps) && diff_within(a[1], b[1], eps) && diff_within(
            a[2],
            b[2],
            eps,
        ) && diff_within(a[3], b[3], eps) && diff_within(a[4], b[4], eps) && diff_within(
            a[5],
            b[5],
            eps,
        ) && diff_within(a[6], b[6], eps) && diff_within(a[7], b[7], eps) && diff_within(
            a[8],
            b[8],
            eps,
        );
        r
    }
}


// ---------------------------------------------------------------------------
// The spec layer for 4x4 grids.
// ---------------------------------------------------------------------------

/// The cell of a row-major 4x4 grid at row `i`, column `j`.
pub open spec fn idx4(m: Seq<int>, i: int, j: int) -> int
    recommends
        m.len() == 16,
        0 <= i < 4,
        0 <= j < 4,
{
    m[i * 4 + j]
}

/// The 4x4 identity grid.
pub open spec fn ident4() -> Seq<int> {
    seq![1, 0, 0, 0, 0, 1, 0, 0, 0, 0, 1, 0, 0, 0, 0, 1]
}

/// The row-major sequence a 4x4 literal grid stands for.
pub open spec fn grid4_seq<T: Scalar>(data: [[T; 4]; 4]) -> Seq<int> {
    seq![
        data@[0]@[0].sval(),
        data@[0]@[1].sval(),
        data@[0]@[2].sval(),
        data@[0]@[3].sval(),
        data@[1]@[0].sval(),
        data@[1]@[1].sval(),
        data@[1]@[2].sval(),
        data@[1]@[3].sval(),
        data@[2]@[0].sval(),
        data@[2]@[1].sval(),
        data@[2]@[2].sval(),
        data@[2]@[3].sval(),
        data@[3]@[0].sval(),
        data@[3]@[1].sval(),
        data@[3]@[2].sval(),
        data@[3]@[3].sval(),
    ]
}

/// Row `i` of a 4x4 grid, as a 4-component vector.
pub open spec fn row4(m: Seq<int>, i: int) -> Seq<int>
    recommends
        m.len() == 16,
        0 <= i < 4,
{
    seq![m[i * 4], m[i * 4 + 1], m[i * 4 + 2], m[i * 4 + 3]]
}

/// Column `j` of a 4x4 grid, as a 4-component vector.
pub open spec fn col4(m: Seq<int>, j: int) -> Seq<int>
    recommends
        m.len() == 16,
        0 <= j < 4,
{
    seq![m[j], m[4 + j], m[8 + j], m[12 + j]]
}

/// The transpose of a 4x4 grid.
pub open spec fn transpose4(m: Seq<int>) -> Seq<int>
    recommends
        m.len() == 16,
{
    Seq::new(16, |k: int| idx4(m, k % 4, k / 4))
}

/// The index a row or column keeps after one index `d` is deleted: indices
/// below `d` stay, the rest shift up by one.
pub open spec fn skip_idx(k: int, d: int) -> int {
    if k < d {
        k
    } else {
        k + 1
    }
}

/// The 3x3 grid that remains after deleting row `i` and column `j` of a
/// 4x4 grid, its cells read in row-major order.
pub open spec fn sub4(m: Seq<int>, i: int, j: int) -> Seq<int>
    recommends
        m.len() == 16,
        0 <= i < 4,
        0 <= j < 4,
{
    Seq::new(9, |k: int| idx4(m, skip_idx(k / 3, i), skip_idx(k % 3, j)))
}

/// The minor of a 4x4 grid at (i, j): the 3x3 determinant of the grid that
/// remains after deleting row `i` and column `j`.
pub open spec fn minor4(m: Seq<int>, i: int, j: int) -> int
    recommends
        m.len() == 16,
        0 <= i < 4,
        0 <= j < 4,
{
    det3(sub4(m, i, j))
}

/// The determinant of a 4x4 grid: the Laplace expansion along row 0, with
/// alternating signs.
pub open spec fn det4(m: Seq<int>) -> int
    recommends
        m.len() == 16,
{
    idx4(m, 0, 0) * minor4(m, 0, 0) - idx4(m, 0, 1) * minor4(m, 0, 1) + idx4(m, 0, 2) * minor4(
        m,
        0,
        2,
    ) - idx4(m, 0, 3) * minor4(m, 0, 3)
}

/// The signed cofactor at (i, j) used by the adjugate: positive when
/// `i + j` is even, negative when odd, of the transposed-index minor.
pub open spec fn cof4(m: Seq<int>, i: int, j: int) -> int
    recommends
        m.len() == 16,
        0 <= i < 4,
        0 <= j < 4,
{
    if (i + j) % 2 == 0 {
        minor4(m, j, i)
    } else {
        -minor4(m, j, i)
    }
}

/// The matrix product of two 4x4 grids: cell (i, j) is the dot product of
/// row `i` of the left grid with column `j` of the right one.
pub open spec fn matmul4(a: Seq<int>, b: Seq<int>) -> Seq<int>
    recommends
        a.len() == 16,
        b.len() == 16,
{
    Seq::new(16, |k: int| dot4(row4(a, k / 4), col4(b, k % 4)))
}

/// The matrix-vector product of a 4x4 grid: component `i` is the dot
/// product of the input vector with row `i`.
pub open spec fn mulvec4(m: Seq<int>, v: Seq<int>) -> Seq<int>
    recommends
        m.len() == 16,
        v.len() == 4,
{
    seq![dot4(v, row4(m, 0)), dot4(v, row4(m, 1)), dot4(v, row4(m, 2)), dot4(v, row4(m, 3))]
}

/// The inverse of a 4x4 grid with determinant `det4(m)`: the adjugate,
/// cell by cell, divided by the determinant with truncating division.
pub open spec fn inv4(m: Seq<int>) -> Seq<int>
    recommends
        m.len() == 16,
        det4(m) != 0,
{
    Seq::new(16, |k: int| tdiv(cof4(m, k / 4, k % 4), det4(m)))
}

// ---------------------------------------------------------------------------
// Range predicates for the 4x4 algorithms.
// ---------------------------------------------------------------------------

/// Each cell of the elementwise sum of two 4x4 grids is representable.
pub open spec fn grid4_add_ok<T: Scalar>(m: Seq<int>, o: Seq<int>) -> bool
    recommends
        m.len() == 16,
        o.len() == 16,
{
    &&& in_range::<T>(m[0] + o[0])
    &&& in_range::<T>(m[1] + o[1])
    &&& in_range::<T>(m[2] + o[2])
    &&& in_range::<T>(m[3] + o[3])
    &&& in_range::<T>(m[4] + o[4])
    &&& in_range::<T>(m[5] + o[5])
    &&& in_range::<T>(m[6] + o[6])
    &&& in_range::<T>(m[7] + o[7])
    &&& in_range::<T>(m[8] + o[8])
    &&& in_range::<T>(m[9] + o[9])
    &&& in_range::<T>(m[10] + o[10])
    &&& in_range::<T>(m[11] + o[11])
    &&& in_range::<T>(m[12] + o[12])
    &&& in_range::<T>(m[13] + o[13])
    &&& in_range::<T>(m[14] + o[14])
    &&& in_range::<T>(m[15] + o[15])
}

/// Each cell of the elementwise difference of two 4x4 grids is
/// representable.
pub open spec fn grid4_sub_ok<T: Scalar>(m: Seq<int>, o: Seq<int>) -> bool
    recommends
        m.len() == 16,
        o.len() == 16,
{
    &&& in_range::<T>(m[0] - o[0])
    &&& in_range::<T>(m[1] - o[1])
    &&& in_range::<T>(m[2] - o[2])
    &&& in_range::<T>(m[3] - o[3])
    &&& in_range::<T>(m[4] - o[4])
    &&& in_range::<T>(m[5] - o[5])
    &&& in_range::<T>(m[6] - o[6])
    &&& in_range::<T>(m[7] - o[7])
    &&& in_range::<T>(m[8] - o[8])
    &&& in_range::<T>(m[9] - o[9])
    &&& in_range::<T>(m[10] - o[10])
    &&& in_range::<T>(m[11] - o[11])
    &&& in_range::<T>(m[12] - o[12])
    &&& in_range::<T>(m[13] - o[13])
    &&& in_range::<T>(m[14] - o[14])
    &&& in_range::<T>(m[15] - o[15])
}

/// Every intermediate value of the Laplace expansion along row 0, taken in
/// evaluation order, is representable: each of the four minors, each
/// cell-times-minor product, and each running sum.
pub open spec fn det4_ok<T: Scalar>(m: Seq<int>) -> bool
    recommends
        m.len() == 16,
{
    let p0 = idx4(m, 0, 0) * minor4(m, 0, 0);
    let p1 = idx4(m, 0, 1) * minor4(m, 0, 1);
    let p2 = idx4(m, 0, 2) * minor4(m, 0, 2);
    let p3 = idx4(m, 0, 3) * minor4(m, 0, 3);
    &&& det3_ok::<T>(sub4(m, 0, 0))
    &&& det3_ok::<T>(sub4(m, 0, 1))
    &&& det3_ok::<T>(sub4(m, 0, 2))
    &&& det3_ok::<T>(sub4(m, 0, 3))
    &&& in_range::<T>(p0)
    &&& in_range::<T>(p1)
    &&& in_range::<T>(p2)
    &&& in_range::<T>(p3)
    &&& in_range::<T>(p0 - p1)
    &&& in_range::<T>(p0 - p1 + p2)
    &&& in_range::<T>(p0 - p1 + p2 - p3)
}

/// Every cell of the matrix product of two 4x4 grids can be computed
/// without leaving the representable range.
pub open spec fn matmul4_ok<T: Scalar>(a: Seq<int>, b: Seq<int>) -> bool
    recommends
        a.len() == 16,
        b.len() == 16,
{
    forall|i: int, j: int|
        0 <= i < 4 && 0 <= j < 4 ==> #[trigger] dot4_ok::<T>(row4(a, i), col4(b, j))
}

/// Every component of the matrix-vector product of a 4x4 grid can be
/// computed without leaving the representable range.
pub open spec fn mulvec4_ok<T: Scalar>(m: Seq<int>, v: Seq<int>) -> bool
    recommends
        m.len() == 16,
        v.len() == 4,
{
    forall|i: int| 0 <= i < 4 ==> #[trigger] dot4_ok::<T>(v, row4(m, i))
}

/// Everything the adjugate-based 4x4 inversion computes stays
/// representable: the determinant expansion, every minor, and every negated
/// minor.
pub open spec fn inv4_ok<T: Scalar>(m: Seq<int>) -> bool
    recommends
        m.len() == 16,
{
    &&& det4_ok::<T>(m)
    &&& forall|i: int, j: int| 0 <= i < 4 && 0 <= j < 4 ==> det3_ok::<T>(#[trigger] sub4(m, i, j))
    &&& forall|i: int, j: int|
        0 <= i < 4 && 0 <= j < 4 ==> in_range::<T>(-(#[trigger] minor4(m, i, j)))
}

// ---------------------------------------------------------------------------
// The 4x4 matrix.
// ---------------------------------------------------------------------------

/// The index that an original row or column of a 4x4 grid keeps inside a
/// 3x3 submatrix read: indices below the deleted one stay, the rest shift
/// up by one.
fn skip(k: usize, d: usize) -> (r: usize)
    requires
        k < 3,
        d < 4,
    ensures
        r == skip_idx(k as int, d as int),
        r < 4,
{
    if k < d {
        k
    } else {
        k + 1
    }
}

#[derive(Debug, Clone, PartialEq)]
pub struct Matrix4x4<T: Scalar> {
    pub cells: [T; 16],
}

impl<T: Scalar> View for Matrix4x4<T> {
    type V = Seq<int>;

    open spec fn view(&self) -> Seq<int> {
        Seq::new(16, |k: int| self.cells@[k].sval())
    }
}

impl<T: Scalar> Matrix4x4<T> {
    /// The value a cell holds, as a scalar.
    pub open spec fn cell(self, i: int, j: int) -> T
        recommends
            0 <= i < 4,
            0 <= j < 4,
    {
        self.cells@[i * 4 + j]
    }

    /// Builds the matrix from a literal grid, row by row.
    pub fn new(data: [[T; 4]; 4]) -> (r: Self)
        ensures
            r@ =~= grid4_seq(data),
    {
        let r0 = data[0];
        let r1 = data[1];
        let r2 = data[2];
        let r3 = data[3];
        Self {
            cells: [
                r0[0],
                r0[1],
                r0[2],
                r0[3],
                r1[0],
                r1[1],
                r1[2],
                r1[3],
                r2[0],
                r2[1],
                r2[2],
                r2[3],
                r3[0],
                r3[1],
                r3[2],
                r3[3],
            ],
        }
    }

    /// The matrix with every cell equal to the scalar zero.
    pub fn zero() -> (r: Self)
        ensures
            r@ =~= zero_seq(16),
    {
        let z = T::zero();
        Self { cells: [z, z, z, z, z, z, z, z, z, z, z, z, z, z, z, z] }
    }

    /// The number of rows and columns.
    pub fn dimensions(&self) -> (r: (usize, usize))
        ensures
            r == (4usize, 4usize),
    {
        (4, 4)
    }

    /// The identity matrix: ones on the diagonal, zeros elsewhere.
    pub fn identity() -> (r: Self)
        ensures
            r@ =~= ident4(),
    {
        let o = T::one();
        let z = T::zero();
        Self { cells: [o, z, z, z, z, o, z, z, z, z, o, z, z, z, z, o] }
    }

    /// Builds the matrix cell by cell from `f`: cell (i, j) holds a value
    /// `f` may return for (i, j).
    pub fn from_func<F: Fn(usize, usize) -> T>(f: F) -> (r: Self)
        requires
            forall|i: usize, j: usize| i < 4 && j < 4 ==> #[trigger] call_requires(f, (i, j)),
        ensures
            forall|i: usize, j: usize|
                i < 4 && j < 4 ==> call_ensures(f, (i, j), #[trigger] r.cell(i as int, j as int)),
    {
        let v00 = f(0, 0);
        let v01 = f(0, 1);
        let v02 = f(0, 2);
        let v03 = f(0, 3);
        let v10 = f(1, 0);
        let v11 = f(1, 1);
        let v12 = f(1, 2);
        let v13 = f(1, 3);
        let v20 = f(2, 0);
        let v21 = f(2, 1);
        let v22 = f(2, 2);
        let v23 = f(2, 3);
        let v30 = f(3, 0);
        let v31 = f(3, 1);
        let v32 = f(3, 2);
        let v33 = f(3, 3);
        let r = Self {
            cells: [
                v00,
                v01,
                v02,
                v03,
                v10,
                v11,
                v12,
                v13,
                v20,
                v21,
                v22,
                v23,
                v30,
                v31,
                v32,
                v33,
            ],
        };
        proof {
            assert forall|i: usize, j: usize| i < 4 && j < 4 implies call_ensures(
                f,
                (i, j),
                #[trigger] r.cell(i as int, j as int),
            ) by {
                if i == 0 && j == 0 {
                    assert(r.cell(0, 0) == v00);
                } else if i == 0 && j == 1 {
                    assert(r.cell(0, 1) == v01);
                } else if i == 0 && j == 2 {
                    assert(r.cell(0, 2) == v02);
                } else if i == 0 && j == 3 {
                    assert(r.cell(0, 3) == v03);
                } else if i == 1 && j == 0 {
                    assert(r.cell(1, 0) == v10);
                } else if i == 1 && j == 1 {
                    assert(r.cell(1, 1) == v11);
                } else if i == 1 && j == 2 {
                    assert(r.cell(1, 2) == v12);
                } else if i == 1 && j == 3 {
                    assert(r.cell(1, 3) == v13);
                } else if i == 2 && j == 0 {
                    assert(r.cell(2, 0) == v20);
                } else if i == 2 && j == 1 {
                    assert(r.cell(2, 1) == v21);
                } else if i == 2 && j == 2 {
                    assert(r.cell(2, 2) == v22);
                } else if i == 2 && j == 3 {
                    assert(r.cell(2, 3) == v23);
                } else if i == 3 && j == 0 {
                    assert(r.cell(3, 0) == v30);
                } else if i == 3 && j == 1 {
                    assert(r.cell(3, 1) == v31);
                } else if i == 3 && j == 2 {
                    assert(r.cell(3, 2) == v32);
                } else {
                    assert(r.cell(3, 3) == v33);
                }
            }
        }
        r
    }

    /// The cell at row `i`, column `j`; the indices are the caller's
    /// responsibility and both lie below 4.
    pub fn get_val(&self, i: usize, j: usize) -> (r: T)
        requires
            i < 4,
            j < 4,
        ensures
            r.sval() == idx4(self@, i as int, j as int),
            r == self.cell(i as int, j as int),
    {
        self.cells[i * 4 + j]
    }

    /// Row `i`, as a vector.
    fn row(&self, i: usize) -> (r: Vector4D<T>)
        requires
            i < 4,
        ensures
            r@ =~= row4(self@, i as int),
    {
        Vector4D {
            x: self.cells[i * 4],
            y: self.cells[i * 4 + 1],
            z: self.cells[i * 4 + 2],
            w: self.cells[i * 4 + 3],
        }
    }

    /// Column `j`, as a vector.
    fn col(&self, j: usize) -> (r: Vector4D<T>)
        requires
            j < 4,
        ensures
            r@ =~= col4(self@, j as int),
    {
        Vector4D {
            x: self.cells[j],
            y: self.cells[4 + j],
            z: self.cells[8 + j],
            w: self.cells[12 + j],
        }
    }

    /// The determinant, by Laplace expansion along row 0 with alternating
    /// signs.
    pub fn determinant(&self) -> (r: T)
        requires
            det4_ok::<T>(self@),
        ensures
            r.sval() == det4(self@),
    {
        let m0 = self.minor(0, 0);
        let m1 = self.minor(0, 1);
        let m2 = self.minor(0, 2);
        let m3 = self.minor(0, 3);
        let p0 = self.cells[0].mul(m0);
        let p1 = self.cells[1].mul(m1);
        let p2 = self.cells[2].mul(m2);
        let p3 = self.cells[3].mul(m3);
        p0.sub(p1).add(p2).sub(p3)
    }

    /// The minor at (i, j): the determinant of the 3x3 grid left after
    /// deleting row `i` and column `j`, computed by the 3x3 determinant
    /// algorithm.
    pub fn minor(&self, i: usize, j: usize) -> (r: T)
        requires
            i < 4,
            j < 4,
            det3_ok::<T>(sub4(self@, i as int, j as int)),
        ensures
            r.sval() == minor4(self@, i as int, j as int),
    {
        let s = Matrix3x3 {
            cells: [
                self.get_val(skip(0, i), skip(0, j)),
                self.get_val(skip(0, i), skip(1, j)),
                self.get_val(skip(0, i), skip(2, j)),
                self.get_val(skip(1, i), skip(0, j)),
                self.get_val(skip(1, i), skip(1, j)),
                self.get_val(skip(1, i), skip(2, j)),
                self.get_val(skip(2, i), skip(0, j)),
                self.get_val(skip(2, i), skip(1, j)),
                self.get_val(skip(2, i), skip(2, j)),
            ],
        };
        proof {
            assert(s@ =~= sub4(self@, i as int, j as int));
        }
        s.determinant()
    }

    /// The transpose: cell (i, j) holds cell (j, i) of the original.
    pub fn transposed(&self) -> (r: Self)
        ensures
            r@ =~= transpose4(self@),
    {
        let d = &self.cells;
        Self {
            cells: [
                d[0],
                d[4],
                d[8],
                d[12],
                d[1],
                d[5],
                d[9],
                d[13],
                d[2],
                d[6],
                d[10],
                d[14],
                d[3],
                d[7],
                d[11],
                d[15],
            ],
        }
    }

    /// The elementwise sum.
    pub fn add(&self, other: &Self) -> (r: Self)
        requires
            grid4_add_ok::<T>(self@, other@),
        ensures
            r@ =~= seq_add(self@, other@),
    {
        let a = &self.cells;
        let b = &other.cells;
        Self {
            cells: [
                a[0].add(b[0]),
                a[1].add(b[1]),
                a[2].add(b[2]),
                a[3].add(b[3]),
                a[4].add(b[4]),
                a[5].add(b[5]),
                a[6].add(b[6]),
                a[7].add(b[7]),
                a[8].add(b[8]),
                a[9].add(b[9]),
                a[10].add(b[10]),
                a[11].add(b[11]),
                a[12].add(b[12]),
                a[13].add(b[13]),
                a[14].add(b[14]),
                a[15].add(b[15]),
            ],
        }
    }

    /// The elementwise difference.
    pub fn sub(&self, other: &Self) -> (r: Self)
        requires
            grid4_sub_ok::<T>(self@, other@),
        ensures
            r@ =~= seq_sub(self@, other@),
    {
        let a = &self.cells;
        let b = &other.cells;
        Self {
            cells: [
                a[0].sub(b[0]),
                a[1].sub(b[1]),
                a[2].sub(b[2]),
                a[3].sub(b[3]),
                a[4].sub(b[4]),
                a[5].sub(b[5]),
                a[6].sub(b[6]),
                a[7].sub(b[7]),
                a[8].sub(b[8]),
                a[9].sub(b[9]),
                a[10].sub(b[10]),
                a[11].sub(b[11]),
                a[12].sub(b[12]),
                a[13].sub(b[13]),
                a[14].sub(b[14]),
                a[15].sub(b[15]),
            ],
        }
    }

    /// The matrix product (named after the vector cross product, but a
    /// plain matrix multiplication): cell (i, j) is the dot product of row
    /// `i` of `self` with column `j` of `other`.
    pub fn cross(&self, other: &Self) -> (r: Self)
        requires
            matmul4_ok::<T>(self@, other@),
        ensures
            r@ =~= matmul4(self@, other@),
    {
        let r0 = self.row(0);
        let r1 = self.row(1);
        let r2 = self.row(2);
        let r3 = self.row(3);
        let c0 = other.col(0);
        let c1 = other.col(1);
        let c2 = other.col(2);
        let c3 = other.col(3);
        Self {
            cells: [
                r0.dot(&c0),
                r0.dot(&c1),
                r0.dot(&c2),
                r0.dot(&c3),
                r1.dot(&c0),
                r1.dot(&c1),
                r1.dot(&c2),
                r1.dot(&c3),
                r2.dot(&c0),
                r2.dot(&c1),
                r2.dot(&c2),
                r2.dot(&c3),
                r3.dot(&c0),
                r3.dot(&c1),
                r3.dot(&c2),
                r3.dot(&c3),
            ],
        }
    }

    /// The inverse, when one exists. The matrix is singular exactly when
    /// its determinant is zero, and the scalars of this library are exact,
    /// so singularity is an exact-zero test; a singular matrix has no
    /// inverse and the result is absent. Otherwise cell (i, j) is the
    /// cofactor-signed minor at (j, i) divided by the determinant.
    #[verifier::rlimit(100)]
    #[verifier::spinoff_prover]
    pub fn inverse(&self) -> (r: Option<Self>)
        requires
            inv4_ok::<T>(self@),
        ensures
            match r {
                Some(inv) => det4(self@) != 0 && inv@ =~= inv4(self@),
                None => det4(self@) == 0,
            },
    {
        let det = self.determinant();
        let z = T::zero();
        if det.eq_val(z) {
            return None;
        }
        proof {
            assert forall|i: int, j: int| 0 <= i < 4 && 0 <= j < 4 implies in_range::<T>(
                tdiv(#[trigger] minor4(self@, i, j), det4(self@)),
            ) && in_range::<T>(tdiv(-minor4(self@, i, j), det4(self@))) by {
                assert(det3_ok::<T>(sub4(self@, i, j)));
                assert(in_range::<T>(minor4(self@, i, j)));
                assert(in_range::<T>(-minor4(self@, i, j)));
                lemma_tdiv_bounds(minor4(self@, i, j), det4(self@));
                lemma_tdiv_bounds(-minor4(self@, i, j), det4(self@));
            }
        }
        let c00 = self.minor(0, 0).div(det);
        let c01 = self.minor(1, 0).neg().div(det);
        let c02 = self.minor(2, 0).div(det);
        let c03 = self.minor(3, 0).neg().div(det);
        let c10 = self.minor(0, 1).neg().div(det);
        let c11 = self.minor(1, 1).div(det);
        let c12 = self.minor(2, 1).neg().div(det);
        let c13 = self.minor(3, 1).div(det);
        let c20 = self.minor(0, 2).div(det);
        let c21 = self.minor(1, 2).neg().div(det);
        let c22 = self.minor(2, 2).div(det);
        let c23 = self.minor(3, 2).neg().div(det);
        let c30 = self.minor(0, 3).neg().div(det);
        let c31 = self.minor(1, 3).div(det);
        let c32 = self.minor(2, 3).neg().div(det);
        let c33 = self.minor(3, 3).div(det);
        let inv = Self {
            cells: [c00, c01, c02, c03, c10, c11, c12, c13, c20, c21, c22, c23, c30, c31, c32, c33],
        };
        proof {
            assert(c00.sval() == tdiv(cof4(self@, 0, 0), det4(self@)));
            assert(c01.sval() == tdiv(cof4(self@, 0, 1), det4(self@)));
            assert(c02.sval() == tdiv(cof4(self@, 0, 2), det4(self@)));
            assert(c03.sval() == tdiv(cof4(self@, 0, 3), det4(self@)));
            assert(c10.sval() == tdiv(cof4(self@, 1, 0), det4(self@)));
            assert(c11.sval() == tdiv(cof4(self@, 1, 1), det4(self@)));
            assert(c12.sval() == tdiv(cof4(self@, 1, 2), det4(self@)));
            assert(c13.sval() == tdiv(cof4(self@, 1, 3), det4(self@)));
            assert(c20.sval() == tdiv(cof4(self@, 2, 0), det4(self@)));
            assert(c21.sval() == tdiv(cof4(self@, 2, 1), det4(self@)));
            assert(c22.sval() == tdiv(cof4(self@, 2, 2), det4(self@)));
            assert(c23.sval() == tdiv(cof4(self@, 2, 3), det4(self@)));
            assert(c30.sval() == tdiv(cof4(self@, 3, 0), det4(self@)));
            assert(c31.sval() == tdiv(cof4(self@, 3, 1), det4(self@)));
            assert(c32.sval() == tdiv(cof4(self@, 3, 2), det4(self@)));
            assert(c33.sval() == tdiv(cof4(self@, 3, 3), det4(self@)));
            assert(inv@ =~= inv4(self@));
        }
        Some(inv)
    }

    /// The matrix-vector product: component `i` of the result is the dot
    /// product of the input vector with row `i`.
    pub fn mul_vec(&self, v: &Vector4D<T>) -> (r: Vector4D<T>)
        requires
            mulvec4_ok::<T>(self@, v@),
        ensures
            r@ =~= mulvec4(self@, v@),
    {
        Vector4D {
            x: v.dot(&self.row(0)),
            y: v.dot(&self.row(1)),
            z: v.dot(&self.row(2)),
            w: v.dot(&self.row(3)),
        }
    }

    /// Whether every pair of corresponding cells differs by at most `eps`
    /// in absolute value.
    pub fn precision_eq(&self, other: &Self, eps: T) -> (r: bool)
        requires
            grid4_sub_ok::<T>(self@, other@),
            grid4_sub_ok::<T>(other@, self@),
        ensures
            r <==> seq_within(self@, other@, eps.sval()),
    {
        let a = &self.cells;
        let b = &other.cells;
        let r = diff_within(a[0], b[0], eps) && diff_within(a[1], b[1], eps) && diff_within(
            a[2],
            b[2],
            eps,
        ) && diff_within(a[3], b[3], eps) && diff_within(a[4], b[4], eps) && diff_within(
            a[5],
            b[5],
            eps,
        ) && diff_within(a[6], b[6], eps) && diff_within(a[7], b[7], eps) && diff_within(
            a[8],
            b[8],
            eps,
        ) && diff_within(a[9], b[9], eps) && diff_within(a[10], b[10], eps) && diff_within(
            a[11],
            b[11],
            eps,
        ) && diff_within(a[12], b[12], eps) && diff_within(a[13], b[13], eps) && diff_within(
            a[14],
            b[14],
            eps,
        ) && diff_within(a[15], b[15], eps);
        r
    }
}


// ---------------------------------------------------------------------------
// Laws of the matrix algebra.
// ---------------------------------------------------------------------------

/// The determinant of the 3x3 identity grid is one.
pub proof fn lemma_det3_identity()
    ensures
        det3(ident3()) == 1,
{
    assert(ident3()[0] == 1 && ident3()[1] == 0 && ident3()[2] == 0 && ident3()[3] == 0
        && ident3()[4] == 1 && ident3()[5] == 0 && ident3()[6] == 0 && ident3()[7] == 0
        && ident3()[8] == 1);
}

/// The determinant of the 4x4 identity grid is one.
pub proof fn lemma_det4_identity()
    ensures
        det4(ident4()) == 1,
{
    let e = ident4();
    assert(e[0] == 1 && e[1] == 0 && e[2] == 0 && e[3] == 0 && e[4] == 0 && e[5] == 1 && e[6] == 0
        && e[7] == 0 && e[8] == 0 && e[9] == 0 && e[10] == 1 && e[11] == 0 && e[12] == 0 && e[13]
        == 0 && e[14] == 0 && e[15] == 1);
    assert(minor4(e, 0, 0) == 1) by {
        assert(sub4(e, 0, 0) =~= seq![1, 0, 0, 0, 1, 0, 0, 0, 1]);
        lemma_det3_seq(seq![1, 0, 0, 0, 1, 0, 0, 0, 1]);
    }
    assert(minor4(e, 0, 1) == 0) by {
        assert(sub4(e, 0, 1) =~= seq![0, 0, 0, 0, 1, 0, 0, 0, 1]);
        lemma_det3_seq(seq![0, 0, 0, 0, 1, 0, 0, 0, 1]);
    }
    assert(minor4(e, 0, 2) == 0) by {
        assert(sub4(e, 0, 2) =~= seq![0, 1, 0, 0, 0, 0, 0, 0, 1]);
        lemma_det3_seq(seq![0, 1, 0, 0, 0, 0, 0, 0, 1]);
    }
    assert(minor4(e, 0, 3) == 0) by {
        assert(sub4(e, 0, 3) =~= seq![0, 1, 0, 0, 0, 1, 0, 0, 0]);
        lemma_det3_seq(seq![0, 1, 0, 0, 0, 1, 0, 0, 0]);
    }
}

/// Transposing twice restores the original 3x3 grid.
pub proof fn lemma_transpose3_involution(m: Seq<int>)
    requires
        m.len() == 9,
    ensures
        transpose3(transpose3(m)) =~= m,
{
}

/// Transposing twice restores the original 4x4 grid.
pub proof fn lemma_transpose4_involution(m: Seq<int>)
    requires
        m.len() == 16,
    ensures
        transpose4(transpose4(m)) =~= m,
{
}

/// The adjugate identity behind the inverse: a 3x3 grid multiplied by its
/// adjugate (the grid of cofactor-signed, transposed-index minors, before
/// the division by the determinant) is the identity scaled by the
/// determinant. Inversion divides each adjugate cell by the determinant, so
/// over exact scalars the product of a matrix with its inverse is the
/// identity exactly when that division is exact.
pub proof fn lemma_mul_adjugate3(m: Seq<int>)
    requires
        m.len() == 9,
    ensures
        matmul3(m, adj3(m)) =~= seq_scale(ident3(), det3(m)),
{
    let x0 = m[0];
    let x1 = m[1];
    let x2 = m[2];
    let x3 = m[3];
    let x4 = m[4];
    let x5 = m[5];
    let x6 = m[6];
    let x7 = m[7];
    let x8 = m[8];
    assert(adj3(m)[0] == cof3(m, 0, 0) && adj3(m)[1] == cof3(m, 0, 1) && adj3(m)[2] == cof3(m, 0, 2)
        && adj3(m)[3] == cof3(m, 1, 0) && adj3(m)[4] == cof3(m, 1, 1) && adj3(m)[5] == cof3(m, 1, 2)
        && adj3(m)[6] == cof3(m, 2, 0) && adj3(m)[7] == cof3(m, 2, 1) && adj3(m)[8] == cof3(
        m,
        2,
        2,
    ));
    assert forall|k: int| 0 <= k < 9 implies matmul3(m, adj3(m))[k] == seq_scale(
        ident3(),
        det3(m),
    )[k] by {
        assert(matmul3(m, adj3(m))[k] == dot3(row3(m, k / 3), col3(adj3(m), k % 3)));
        if k == 0 {
            assert(ident3()[0] == 1);
        assert(dot3(row3(m, 0), col3(adj3(m), 0)) == x0 * ((x4 * x8 - x5 * x7)) + x1 * (-(x3 * x8 - x5 * x6)) + x2 * ((x3 * x7 - x4 * x6)));
            assert(x0 * ((x4 * x8 - x5 * x7)) == x0 * x4 * x8 - x0 * x5 * x7) by (nonlinear_arith);
            assert(x1 * (-(x3 * x8 - x5 * x6)) == x1 * x5 * x6 - x1 * x3 * x8) by (nonlinear_arith);
            assert(x2 * ((x3 * x7 - x4 * x6)) == x2 * x3 * x7 - x2 * x4 * x6) by (nonlinear_arith);
            assert(x0 * ((x4 * x8 - x5 * x7)) + x1 * (-(x3 * x8 - x5 * x6)) + x2 * ((x3 * x7 - x4 * x6)) == x0 * x4 * x8 + x1 * x5 * x6 + x2 * x3 * x7 - x2 * x4 * x6 - x1 * x3 * x8 - x0 * x5 * x7);
        } else if k == 1 {
            assert(ident3()[1] == 0);
        assert(dot3(row3(m, 0), col3(adj3(m), 1)) == x0 * (-(x1 * x8 - x2 * x7)) + x1 * ((x0 * x8 - x2 * x6)) + x2 * (-(x0 * x7 - x1 * x6)));
            assert(x0 * (-(x1 * x8 - x2 * x7)) == x0 * x2 * x7 - x0 * x1 * x8) by (nonlinear_arith);
            assert(x1 * ((x0 * x8 - x2 * x6)) == x0 * x1 * x8 - x1 * x2 * x6) by (nonlinear_arith);
            assert(x2 * (-(x0 * x7 - x1 * x6)) == x1 * x2 * x6 - x0 * x2 * x7) by (nonlinear_arith);
            assert(x0 * (-(x1 * x8 - x2 * x7)) + x1 * ((x0 * x8 - x2 * x6)) + x2 * (-(x0 * x7 - x1 * x6)) == 0);
        } else if k == 2 {
            assert(ident3()[2] == 0);
        assert(dot3(row3(m, 0), col3(adj3(m), 2)) == x0 * ((x1 * x5 - x2 * x4)) + x1 * (-(x0 * x5 - x2 * x3)) + x2 * ((x0 * x4 - x1 * x3)));
            assert(x0 * ((x1 * x5 - x2 * x4)) == x0 * x1 * x5 - x0 * x2 * x4) by (nonlinear_arith);
            assert(x1 * (-(x0 * x5 - x2 * x3)) == x1 * x2 * x3 - x0 * x1 * x5) by (nonlinear_arith);
            assert(x2 * ((x0 * x4 - x1 * x3)) == x0 * x2 * x4 - x1 * x2 * x3) by (nonlinear_arith);
            assert(x0 * ((x1 * x5 - x2 * x4)) + x1 * (-(x0 * x5 - x2 * x3)) + x2 * ((x0 * x4 - x1 * x3)) == 0);
        } else if k == 3 {
            assert(ident3()[3] == 0);
        assert(dot3(row3(m, 1), col3(adj3(m), 0)) == x3 * ((x4 * x8 - x5 * x7)) + x4 * (-(x3 * x8 - x5 * x6)) + x5 * ((x3 * x7 - x4 * x6)));
            assert(x3 * ((x4 * x8 - x5 * x7)) == x3 * x4 * x8 - x3 * x5 * x7) by (nonlinear_arith);
            assert(x4 * (-(x3 * x8 - x5 * x6)) == x4 * x5 * x6 - x3 * x4 * x8) by (nonlinear_arith);
            assert(x5 * ((x3 * x7 - x4 * x6)) == x3 * x5 * x7 - x4 * x5 * x6) by (nonlinear_arith);
            assert(x3 * ((x4 * x8 - x5 * x7)) + x4 * (-(x3 * x8 - x5 * x6)) + x5 * ((x3 * x7 - x4 * x6)) == 0);
        } else if k == 4 {
            assert(ident3()[4] == 1);
        assert(dot3(row3(m, 1), col3(adj3(m), 1)) == x3 * (-(x1 * x8 - x2 * x7)) + x4 * ((x0 * x8 - x2 * x6)) + x5 * (-(x0 * x7 - x1 * x6)));
            assert(x3 * (-(x1 * x8 - x2 * x7)) == x2 * x3 * x7 - x1 * x3 * x8) by (nonlinear_arith);
            assert(x4 * ((x0 * x8 - x2 * x6)) == x0 * x4 * x8 - x2 * x4 * x6) by (nonlinear_arith);
            assert(x5 * (-(x0 * x7 - x1 * x6)) == x1 * x5 * x6 - x0 * x5 * x7) by (nonlinear_arith);
            assert(x3 * (-(x1 * x8 - x2 * x7)) + x4 * ((x0 * x8 - x2 * x6)) + x5 * (-(x0 * x7 - x1 * x6)) == x0 * x4 * x8 + x1 * x5 * x6 + x2 * x3 * x7 - x2 * x4 * x6 - x1 * x3 * x8 - x0 * x5 * x7);
        } else if k == 5 {
            assert(ident3()[5] == 0);
        assert(dot3(row3(m, 1), col3(adj3(m), 2)) == x3 * ((x1 * x5 - x2 * x4)) + x4 * (-(x0 * x5 - x2 * x3)) + x5 * ((x0 * x4 - x1 * x3)));
            assert(x3 * ((x1 * x5 - x2 * x4)) == x1 * x3 * x5 - x2 * x3 * x4) by (nonlinear_arith);
            assert(x4 * (-(x0 * x5 - x2 * x3)) == x2 * x3 * x4 - x0 * x4 * x5) by (nonlinear_arith);
            assert(x5 * ((x0 * x4 - x1 * x3)) == x0 * x4 * x5 - x1 * x3 * x5) by (nonlinear_arith);
            assert(x3 * ((x1 * x5 - x2 * x4)) + x4 * (-(x0 * x5 - x2 * x3)) + x5 * ((x0 * x4 - x1 * x3)) == 0);
        } else if k == 6 {
            assert(ident3()[6] == 0);
        assert(dot3(row3(m, 2), col3(adj3(m), 0)) == x6 * ((x4 * x8 - x5 * x7)) + x7 * (-(x3 * x8 - x5 * x6)) + x8 * ((x3 * x7 - x4 * x6)));
            assert(x6 * ((x4 * x8 - x5 * x7)) == x4 * x6 * x8 - x5 * x6 * x7) by (nonlinear_arith);
            assert(x7 * (-(x3 * x8 - x5 * x6)) == x5 * x6 * x7 - x3 * x7 * x8) by (nonlinear_arith);
            assert(x8 * ((x3 * x7 - x4 * x6)) == x3 * x7 * x8 - x4 * x6 * x8) by (nonlinear_arith);
            assert(x6 * ((x4 * x8 - x5 * x7)) + x7 * (-(x3 * x8 - x5 * x6)) + x8 * ((x3 * x7 - x4 * x6)) == 0);
        } else if k == 7 {
            assert(ident3()[7] == 0);
        assert(dot3(row3(m, 2), col3(adj3(m), 1)) == x6 * (-(x1 * x8 - x2 * x7)) + x7 * ((x0 * x8 - x2 * x6)) + x8 * (-(x0 * x7 - x1 * x6)));
            assert(x6 * (-(x1 * x8 - x2 * x7)) == x2 * x6 * x7 - x1 * x6 * x8) by (nonlinear_arith);
            assert(x7 * ((x0 * x8 - x2 * x6)) == x0 * x7 * x8 - x2 * x6 * x7) by (nonlinear_arith);
            assert(x8 * (-(x0 * x7 - x1 * x6)) == x1 * x6 * x8 - x0 * x7 * x8) by (nonlinear_arith);
            assert(x6 * (-(x1 * x8 - x2 * x7)) + x7 * ((x0 * x8 - x2 * x6)) + x8 * (-(x0 * x7 - x1 * x6)) == 0);
        } else {
            assert(ident3()[8] == 1);
        assert(dot3(row3(m, 2), col3(adj3(m), 2)) == x6 * ((x1 * x5 - x2 * x4)) + x7 * (-(x0 * x5 - x2 * x3)) + x8 * ((x0 * x4 - x1 * x3)));
            assert(x6 * ((x1 * x5 - x2 * x4)) == x1 * x5 * x6 - x2 * x4 * x6) by (nonlinear_arith);
            assert(x7 * (-(x0 * x5 - x2 * x3)) == x2 * x3 * x7 - x0 * x5 * x7) by (nonlinear_arith);
            assert(x8 * ((x0 * x4 - x1 * x3)) == x0 * x4 * x8 - x1 * x3 * x8) by (nonlinear_arith);
            assert(x6 * ((x1 * x5 - x2 * x4)) + x7 * (-(x0 * x5 - x2 * x3)) + x8 * ((x0 * x4 - x1 * x3)) == x0 * x4 * x8 + x1 * x5 * x6 + x2 * x3 * x7 - x2 * x4 * x6 - x1 * x3 * x8 - x0 * x5 * x7);
        }
    }
}

/// The adjugate of a 3x3 grid: cell (i, j) is the cofactor-signed minor at
/// (j, i). The inverse divides each of its cells by the determinant.
pub open spec fn adj3(m: Seq<int>) -> Seq<int>
    recommends
        m.len() == 9,
{
    Seq::new(9, |k: int| cof3(m, k / 3, k % 3))
}


/// The inverse round trip, on the exact-scalar inputs where it holds: a 3x3
/// grid whose determinant is one or minus one has an exact inverse, and the
/// matrix product with that inverse restores the identity. For other
/// nonzero determinants the truncating scalar division makes the integer
/// inverse inexact, so the round trip can fail; with floating scalars it
/// holds only within a tolerance, and floating point is work outside the
/// verified core.
pub proof fn lemma_unimodular_inverse3(m: Seq<int>)
    requires
        m.len() == 9,
        det3(m) == 1 || det3(m) == -1,
    ensures
        matmul3(m, inv3(m)) =~= ident3(),
{
    lemma_mul_adjugate3(m);
    if det3(m) == 1 {
        assert forall|k: int| 0 <= k < 9 implies inv3(m)[k] == adj3(m)[k] by {
            lemma_tdiv_unit(cof3(m, k / 3, k % 3));
        }
        assert(inv3(m) =~= adj3(m));
        assert forall|k: int| 0 <= k < 9 implies matmul3(m, inv3(m))[k] == ident3()[k] by {
            assert(matmul3(m, inv3(m))[k] == seq_scale(ident3(), 1)[k]);
            assert(seq_scale(ident3(), 1)[k] == ident3()[k] * 1);
        }
    } else {
        assert forall|k: int| 0 <= k < 9 implies inv3(m)[k] == seq_neg(adj3(m))[k] by {
            lemma_tdiv_unit(cof3(m, k / 3, k % 3));
        }
        assert(inv3(m) =~= seq_neg(adj3(m)));
        assert forall|k: int| 0 <= k < 9 implies matmul3(m, inv3(m))[k] == ident3()[k] by {
            let u = row3(m, k / 3);
            let v = col3(adj3(m), k % 3);
            assert(col3(seq_neg(adj3(m)), k % 3) =~= seq_neg(v));
            assert(seq_neg(v)[0] == -v[0] && seq_neg(v)[1] == -v[1] && seq_neg(v)[2] == -v[2]);
            assert(u[0] * (-v[0]) == -(u[0] * v[0])) by (nonlinear_arith);
            assert(u[1] * (-v[1]) == -(u[1] * v[1])) by (nonlinear_arith);
            assert(u[2] * (-v[2]) == -(u[2] * v[2])) by (nonlinear_arith);
            assert(dot3(u, seq_neg(v)) == -dot3(u, v));
            assert(matmul3(m, inv3(m))[k] == dot3(u, col3(inv3(m), k % 3)));
            assert(col3(inv3(m), k % 3) =~= seq_neg(v));
            assert(matmul3(m, adj3(m))[k] == dot3(u, v));
            assert(dot3(u, v) == seq_scale(ident3(), det3(m))[k]);
            assert(seq_scale(ident3(), det3(m))[k] == ident3()[k] * -1);
        }
    }
}

/// Spells the six-term determinant of a 3x3 grid out over its cells.
pub proof fn lemma_det3_seq(m: Seq<int>)
    requires
        m.len() == 9,
    ensures
        det3(m) == m[0] * m[4] * m[8] + m[1] * m[5] * m[6] + m[2] * m[3] * m[7] - m[2] * m[4] * m[6]
            - m[1] * m[3] * m[8] - m[0] * m[5] * m[7],
{
}


} // verus!
