//! Fixed-dimension vectors with 2, 3 and 4 components over an abstract
//! scalar, with elementwise algebra, dot products, tolerance comparison and
//! (for three components only) the 3D cross product.
//!
//! Every vector is viewed as a sequence of mathematical integers, one per
//! component, and every contract is stated over that view.

use vstd::prelude::*;
use vstd::math::abs;
use vstd::math::max;
use crate::errors::VectorErr;
use crate::types::{in_range, Scalar};

verus! {

// ---------------------------------------------------------------------------
// The spec layer: componentwise algebra over sequences of integers. These
// are shared with the matrix grids, which are viewed as sequences too.
// ---------------------------------------------------------------------------

/// The all-zero sequence of length `n`.
pub open spec fn zero_seq(n: nat) -> Seq<int> {
    Seq::new(n, |k: int| 0)
}

/// Componentwise negation.
pub open spec fn seq_neg(v: Seq<int>) -> Seq<int> {
    Seq::new(v.len(), |k: int| -v[k])
}

/// Componentwise sum.
pub open spec fn seq_add(v: Seq<int>, w: Seq<int>) -> Seq<int>
    recommends
        v.len() == w.len(),
{
    Seq::new(v.len(), |k: int| v[k] + w[k])
}

/// Componentwise difference.
pub open spec fn seq_sub(v: Seq<int>, w: Seq<int>) -> Seq<int>
    recommends
        v.len() == w.len(),
{
    Seq::new(v.len(), |k: int| v[k] - w[k])
}

/// Componentwise product with one scalar.
pub open spec fn seq_scale(v: Seq<int>, a: int) -> Seq<int> {
    Seq::new(v.len(), |k: int| v[k] * a)
}

/// Every component differs from its counterpart by at most `eps` in
/// absolute value.
pub open spec fn seq_within(v: Seq<int>, w: Seq<int>, eps: int) -> bool
    recommends
        v.len() == w.len(),
{
    forall|k: int| 0 <= k < v.len() ==> abs(#[trigger] v[k] - w[k]) <= eps
}

/// The dot product of two 2-component vectors.
pub open spec fn dot2(v: Seq<int>, w: Seq<int>) -> int
    recommends
        v.len() == 2,
        w.len() == 2,
{
    v[0] * w[0] + v[1] * w[1]
}

/// The dot product of two 3-component vectors.
pub open spec fn dot3(v: Seq<int>, w: Seq<int>) -> int
    recommends
        v.len() == 3,
        w.len() == 3,
{
    v[0] * w[0] + v[1] * w[1] + v[2] * w[2]
}

/// The dot product of two 4-component vectors.
pub open spec fn dot4(v: Seq<int>, w: Seq<int>) -> int
    recommends
        v.len() == 4,
        w.len() == 4,
{
    v[0] * w[0] + v[1] * w[1] + v[2] * w[2] + v[3] * w[3]
}

/// The standard 3D cross product.
pub open spec fn cross3(v: Seq<int>, w: Seq<int>) -> Seq<int>
    recommends
        v.len() == 3,
        w.len() == 3,
{
    seq![
        v[1] * w[2] - v[2] * w[1],
        v[2] * w[0] - v[0] * w[2],
        v[0] * w[1] - v[1] * w[0],
    ]
}

/// The largest absolute value among the components: the divisor of the
/// max-abs normalization convention.
pub open spec fn max_abs2(v: Seq<int>) -> int
    recommends
        v.len() == 2,
{
    max(abs(v[0]) as int, abs(v[1]) as int)
}

/// The largest absolute value among three components.
pub open spec fn max_abs3(v: Seq<int>) -> int
    recommends
        v.len() == 3,
{
    max(max_abs2(v), abs(v[2]) as int)
}

/// The largest absolute value among four components.
pub open spec fn max_abs4(v: Seq<int>) -> int
    recommends
        v.len() == 4,
{
    max(max_abs3(v), abs(v[3]) as int)
}

// ---------------------------------------------------------------------------
// Range predicates: the machine-limit side conditions under which each
// componentwise operation is exact in the scalar type `T`.
// ---------------------------------------------------------------------------

/// Each negated component is representable.
pub open spec fn seq_neg_ok<T: Scalar>(v: Seq<int>) -> bool {
    forall|k: int| 0 <= k < v.len() ==> in_range::<T>(-(#[trigger] v[k]))
}

/// Each componentwise sum is representable.
pub open spec fn seq_add_ok<T: Scalar>(v: Seq<int>, w: Seq<int>) -> bool
    recommends
        v.len() == w.len(),
{
    forall|k: int| 0 <= k < v.len() ==> in_range::<T>((#[trigger] v[k]) + w[k])
}

/// Each componentwise difference is representable.
pub open spec fn seq_sub_ok<T: Scalar>(v: Seq<int>, w: Seq<int>) -> bool
    recommends
        v.len() == w.len(),
{
    forall|k: int| 0 <= k < v.len() ==> in_range::<T>((#[trigger] v[k]) - w[k])
}

/// Each scaled component is representable.
pub open spec fn seq_scale_ok<T: Scalar>(v: Seq<int>, a: int) -> bool {
    forall|k: int| 0 <= k < v.len() ==> in_range::<T>((#[trigger] v[k]) * a)
}

/// Every intermediate value of the 2-component dot product, taken left to
/// right, is representable.
pub open spec fn dot2_ok<T: Scalar>(v: Seq<int>, w: Seq<int>) -> bool
    recommends
        v.len() == 2,
        w.len() == 2,
{
    &&& in_range::<T>(v[0] * w[0])
    &&& in_range::<T>(v[1] * w[1])
    &&& in_range::<T>(v[0] * w[0] + v[1] * w[1])
}

/// Every intermediate value of the 3-component dot product, taken left to
/// right, is representable.
pub open spec fn dot3_ok<T: Scalar>(v: Seq<int>, w: Seq<int>) -> bool
    recommends
        v.len() == 3,
        w.len() == 3,
{
    &&& in_range::<T>(v[0] * w[0])
    &&& in_range::<T>(v[1] * w[1])
    &&& in_range::<T>(v[2] * w[2])
    &&& in_range::<T>(v[0] * w[0] + v[1] * w[1])
    &&& in_range::<T>(v[0] * w[0] + v[1] * w[1] + v[2] * w[2])
}

/// Every intermediate value of the 4-component dot product, taken left to
/// right, is representable.
pub open spec fn dot4_ok<T: Scalar>(v: Seq<int>, w: Seq<int>) -> bool
    recommends
        v.len() == 4,
        w.len() == 4,
{
    &&& in_range::<T>(v[0] * w[0])
    &&& in_range::<T>(v[1] * w[1])
    &&& in_range::<T>(v[2] * w[2])
    &&& in_range::<T>(v[3] * w[3])
    &&& in_range::<T>(v[0] * w[0] + v[1] * w[1])
    &&& in_range::<T>(v[0] * w[0] + v[1] * w[1] + v[2] * w[2])
    &&& in_range::<T>(v[0] * w[0] + v[1] * w[1] + v[2] * w[2] + v[3] * w[3])
}

/// Every intermediate value of the cross product is representable.
pub open spec fn cross3_ok<T: Scalar>(v: Seq<int>, w: Seq<int>) -> bool
    recommends
        v.len() == 3,
        w.len() == 3,
{
    &&& in_range::<T>(v[1] * w[2])
    &&& in_range::<T>(v[2] * w[1])
    &&& in_range::<T>(v[2] * w[0])
    &&& in_range::<T>(v[0] * w[2])
    &&& in_range::<T>(v[0] * w[1])
    &&& in_range::<T>(v[1] * w[0])
    &&& in_range::<T>(v[1] * w[2] - v[2] * w[1])
    &&& in_range::<T>(v[2] * w[0] - v[0] * w[2])
    &&& in_range::<T>(v[0] * w[1] - v[1] * w[0])
}

// ---------------------------------------------------------------------------
// Shared executable helpers.
// ---------------------------------------------------------------------------

/// Whether `a` and `b` differ by at most `eps` in absolute value.
pub(crate) fn diff_within<T: Scalar>(a: T, b: T, eps: T) -> (r: bool)
    requires
        in_range::<T>(a.sval() - b.sval()),
        in_range::<T>(b.sval() - a.sval()),
    ensures
        r <==> abs(a.sval() - b.sval()) <= eps.sval(),
{
    let d = a.sub(b);
    let nd = b.sub(a);
    d.le(eps) && nd.le(eps)
}

/// The absolute value of a scalar.
pub(crate) fn abs_val<T: Scalar>(a: T) -> (r: T)
    requires
        in_range::<T>(-a.sval()),
    ensures
        r.sval() == abs(a.sval()),
{
    let z = T::zero();
    if a.le(z) {
        a.neg()
    } else {
        a
    }
}

/// The larger of two scalars.
pub(crate) fn max_val<T: Scalar>(a: T, b: T) -> (r: T)
    ensures
        r.sval() == max(a.sval(), b.sval()),
{
    if a.le(b) {
        b
    } else {
        a
    }
}

// ---------------------------------------------------------------------------
// The 2-component vector.
// ---------------------------------------------------------------------------

#[derive(PartialEq, Clone, Debug)]
pub struct Vector2D<T> {
    pub x: T,
    pub y: T,
}

impl<T: Scalar> View for Vector2D<T> {
    type V = Seq<int>;

    open spec fn view(&self) -> Seq<int> {
        seq![self.x.sval(), self.y.sval()]
    }
}

impl<T> Vector2D<T> {
    pub fn new(x: T, y: T) -> (r: Self)
        ensures
            r.x == x,
            r.y == y,
    {
        Self { x, y }
    }
}

impl<T: Scalar> Vector2D<T> {
    /// The vector with every component equal to the scalar zero.
    pub fn zero() -> (r: Self)
        ensures
            r@ =~= zero_seq(2),
    {
        Self { x: T::zero(), y: T::zero() }
    }

    /// Builds a vector from variable-length input; succeeds exactly when the
    /// input holds one element per component, taken in order.
    pub fn from_slice(data: &[T]) -> (r: Result<Self, VectorErr>)
        ensures
            match r {
                Ok(v) => data@.len() == 2 && v@ =~= seq![data@[0].sval(), data@[1].sval()],
                Err(e) => data@.len() != 2 && e == (VectorErr::LengthErr {
                    expected: 2,
                    got: data@.len() as usize,
                }),
            },
    {
        if data.len() != 2 {
            return Err(VectorErr::LengthErr { expected: 2, got: data.len() });
        }
        Ok(Self { x: data[0], y: data[1] })
    }

    /// Builds a vector from variable-length input; succeeds exactly when the
    /// input holds one element per component, taken in order.
    pub fn from_vec(data: &Vec<T>) -> (r: Result<Self, VectorErr>)
        ensures
            match r {
                Ok(v) => data@.len() == 2 && v@ =~= seq![data@[0].sval(), data@[1].sval()],
                Err(e) => data@.len() != 2 && e == (VectorErr::LengthErr {
                    expected: 2,
                    got: data@.len() as usize,
                }),
            },
    {
        Self::from_slice(data.as_slice())
    }

    /// Componentwise negation.
    pub fn invert(&self) -> (r: Self)
        requires
            seq_neg_ok::<T>(self@),
        ensures
            r@ =~= seq_neg(self@),
    {
        Self { x: self.x.neg(), y: self.y.neg() }
    }

    /// Componentwise sum.
    pub fn add(&self, other: &Self) -> (r: Self)
        requires
            seq_add_ok::<T>(self@, other@),
        ensures
            r@ =~= seq_add(self@, other@),
    {
        Self { x: self.x.add(other.x), y: self.y.add(other.y) }
    }

    /// Componentwise difference.
    pub fn sub(&self, other: &Self) -> (r: Self)
        requires
            seq_sub_ok::<T>(self@, other@),
        ensures
            r@ =~= seq_sub(self@, other@),
    {
        Self { x: self.x.sub(other.x), y: self.y.sub(other.y) }
    }

    /// The dot product: the sum of the componentwise products.
    pub fn dot(&self, other: &Self) -> (r: T)
        requires
            dot2_ok::<T>(self@, other@),
        ensures
            r.sval() == dot2(self@, other@),
    {
        self.x.mul(other.x).add(self.y.mul(other.y))
    }

    /// Componentwise product with one scalar.
    pub fn scale(&self, a: T) -> (r: Self)
        requires
            seq_scale_ok::<T>(self@, a.sval()),
        ensures
            r@ =~= seq_scale(self@, a.sval()),
    {
        Self { x: self.x.mul(a), y: self.y.mul(a) }
    }

    /// Whether every pair of corresponding components differs by at most
    /// `eps` in absolute value.
    pub fn precision_eq(&self, other: &Self, eps: T) -> (r: bool)
        requires
            seq_sub_ok::<T>(self@, other@),
            seq_sub_ok::<T>(other@, self@),
        ensures
            r <==> seq_within(self@, other@, eps.sval()),
    {
        let r = diff_within(self.x, other.x, eps) && diff_within(self.y, other.y, eps);
        proof {
            assert(self@[0] == self.x.sval() && self@[1] == self.y.sval());
        }
        r
    }

    /// The largest absolute value among the components: the divisor of the
    /// max-abs normalization convention.
    pub fn max_abs(&self) -> (r: T)
        requires
            seq_neg_ok::<T>(self@),
        ensures
            r.sval() == max_abs2(self@),
    {
        max_val(abs_val(self.x), abs_val(self.y))
    }
}

// ---------------------------------------------------------------------------
// The 3-component vector.
// ---------------------------------------------------------------------------

#[derive(PartialEq, Clone, Debug)]
pub struct Vector3D<T> {
    pub x: T,
    pub y: T,
    pub z: T,
}

impl<T: Scalar> View for Vector3D<T> {
    type V = Seq<int>;

    open spec fn view(&self) -> Seq<int> {
        seq![self.x.sval(), self.y.sval(), self.z.sval()]
    }
}

impl<T> Vector3D<T> {
    pub fn new(x: T, y: T, z: T) -> (r: Self)
        ensures
            r.x == x,
            r.y == y,
            r.z == z,
    {
        Self { x, y, z }
    }
}

impl<T: Scalar> Vector3D<T> {
    /// The standard 3D cross product; defined for three components only.
    pub fn cross(&self, other: &Self) -> (r: Self)
        requires
            cross3_ok::<T>(self@, other@),
        ensures
            r@ =~= cross3(self@, other@),
    {
        Self {
            x: self.y.mul(other.z).sub(self.z.mul(other.y)),
            y: self.z.mul(other.x).sub(self.x.mul(other.z)),
            z: self.x.mul(other.y).sub(self.y.mul(other.x)),
        }
    }

    /// The vector with every component equal to the scalar zero.
    pub fn zero() -> (r: Self)
        ensures
            r@ =~= zero_seq(3),
    {
        Self { x: T::zero(), y: T::zero(), z: T::zero() }
    }

    /// Builds a vector from variable-length input; succeeds exactly when the
    /// input holds one element per component, taken in order.
    pub fn from_slice(data: &[T]) -> (r: Result<Self, VectorErr>)
        ensures
            match r {
                Ok(v) => data@.len() == 3 && v@ =~= seq![
                    data@[0].sval(),
                    data@[1].sval(),
                    data@[2].sval(),
                ],
                Err(e) => data@.len() != 3 && e == (VectorErr::LengthErr {
                    expected: 3,
                    got: data@.len() as usize,
                }),
            },
    {
        if data.len() != 3 {
            return Err(VectorErr::LengthErr { expected: 3, got: data.len() });
        }
        Ok(Self { x: data[0], y: data[1], z: data[2] })
    }

    /// Builds a vector from variable-length input; succeeds exactly when the
    /// input holds one element per component, taken in order.
    pub fn from_vec(data: &Vec<T>) -> (r: Result<Self, VectorErr>)
        ensures
            match r {
                Ok(v) => data@.len() == 3 && v@ =~= seq![
                    data@[0].sval(),
                    data@[1].sval(),
                    data@[2].sval(),
                ],
                Err(e) => data@.len() != 3 && e == (VectorErr::LengthErr {
                    expected: 3,
                    got: data@.len() as usize,
                }),
            },
    {
        Self::from_slice(data.as_slice())
    }

    /// Componentwise negation.
    pub fn invert(&self) -> (r: Self)
        requires
            seq_neg_ok::<T>(self@),
        ensures
            r@ =~= seq_neg(self@),
    {
        Self { x: self.x.neg(), y: self.y.neg(), z: self.z.neg() }
    }

    /// Componentwise sum.
    pub fn add(&self, other: &Self) -> (r: Self)
        requires
            seq_add_ok::<T>(self@, other@),
        ensures
            r@ =~= seq_add(self@, other@),
    {
        Self {
            x: self.x.add(other.x),
            y: self.y.add(other.y),
            z: self.z.add(other.z),
        }
    }

    /// Componentwise difference.
    pub fn sub(&self, other: &Self) -> (r: Self)
        requires
            seq_sub_ok::<T>(self@, other@),
        ensures
            r@ =~= seq_sub(self@, other@),
    {
        Self {
            x: self.x.sub(other.x),
            y: self.y.sub(other.y),
            z: self.z.sub(other.z),
        }
    }

    /// The dot product: the sum of the componentwise products.
    pub fn dot(&self, other: &Self) -> (r: T)
        requires
            dot3_ok::<T>(self@, other@),
        ensures
            r.sval() == dot3(self@, other@),
    {
        self.x.mul(other.x).add(self.y.mul(other.y)).add(self.z.mul(other.z))
    }

    /// Componentwise product with one scalar.
    pub fn scale(&self, a: T) -> (r: Self)
        requires
            seq_scale_ok::<T>(self@, a.sval()),
        ensures
            r@ =~= seq_scale(self@, a.sval()),
    {
        Self { x: self.x.mul(a), y: self.y.mul(a), z: self.z.mul(a) }
    }

    /// Whether every pair of corresponding components differs by at most
    /// `eps` in absolute value.
    pub fn precision_eq(&self, other: &Self, eps: T) -> (r: bool)
        requires
            seq_sub_ok::<T>(self@, other@),
            seq_sub_ok::<T>(other@, self@),
        ensures
            r <==> seq_within(self@, other@, eps.sval()),
    {
        let r = diff_within(self.x, other.x, eps) && diff_within(self.y, other.y, eps)
            && diff_within(self.z, other.z, eps);
        proof {
            assert(self@[0] == self.x.sval() && self@[1] == self.y.sval() && self@[2]
                == self.z.sval());
        }
        r
    }

    /// The largest absolute value among the components: the divisor of the
    /// max-abs normalization convention.
    pub fn max_abs(&self) -> (r: T)
        requires
            seq_neg_ok::<T>(self@),
        ensures
            r.sval() == max_abs3(self@),
    {
        max_val(max_val(abs_val(self.x), abs_val(self.y)), abs_val(self.z))
    }
}

// ---------------------------------------------------------------------------
// The 4-component vector.
// ---------------------------------------------------------------------------

#[derive(PartialEq, Clone, Debug)]
pub struct Vector4D<T> {
    pub x: T,
    pub y: T,
    pub z: T,
    pub w: T,
}

impl<T: Scalar> View for Vector4D<T> {
    type V = Seq<int>;

    open spec fn view(&self) -> Seq<int> {
        seq![self.x.sval(), self.y.sval(), self.z.sval(), self.w.sval()]
    }
}

impl<T> Vector4D<T> {
    pub fn new(x: T, y: T, z: T, w: T) -> (r: Self)
        ensures
            r.x == x,
            r.y == y,
            r.z == z,
            r.w == w,
    {
        Self { x, y, z, w }
    }
}

impl<T: Scalar> Vector4D<T> {
    /// The vector with every component equal to the scalar zero.
    pub fn zero() -> (r: Self)
        ensures
            r@ =~= zero_seq(4),
    {
        Self { x: T::zero(), y: T::zero(), z: T::zero(), w: T::zero() }
    }

    /// Builds a vector from variable-length input; succeeds exactly when the
    /// input holds one element per component, taken in order.
    pub fn from_slice(data: &[T]) -> (r: Result<Self, VectorErr>)
        ensures
            match r {
                Ok(v) => data@.len() == 4 && v@ =~= seq![
                    data@[0].sval(),
                    data@[1].sval(),
                    data@[2].sval(),
                    data@[3].sval(),
                ],
                Err(e) => data@.len() != 4 && e == (VectorErr::LengthErr {
                    expected: 4,
                    got: data@.len() as usize,
                }),
            },
    {
        if data.len() != 4 {
            return Err(VectorErr::LengthErr { expected: 4, got: data.len() });
        }
        Ok(Self { x: data[0], y: data[1], z: data[2], w: data[3] })
    }

    /// Builds a vector from variable-length input; succeeds exactly when the
    /// input holds one element per component, taken in order.
    pub fn from_vec(data: &Vec<T>) -> (r: Result<Self, VectorErr>)
        ensures
            match r {
                Ok(v) => data@.len() == 4 && v@ =~= seq![
                    data@[0].sval(),
                    data@[1].sval(),
                    data@[2].sval(),
                    data@[3].sval(),
                ],
                Err(e) => data@.len() != 4 && e == (VectorErr::LengthErr {
                    expected: 4,
                    got: data@.len() as usize,
                }),
            },
    {
        Self::from_slice(data.as_slice())
    }

    /// Componentwise negation.
    pub fn invert(&self) -> (r: Self)
        requires
            seq_neg_ok::<T>(self@),
        ensures
            r@ =~= seq_neg(self@),
    {
        Self { x: self.x.neg(), y: self.y.neg(), z: self.z.neg(), w: self.w.neg() }
    }

    /// Componentwise sum.
    pub fn add(&self, other: &Self) -> (r: Self)
        requires
            seq_add_ok::<T>(self@, other@),
        ensures
            r@ =~= seq_add(self@, other@),
    {
        Self {
            x: self.x.add(other.x),
            y: self.y.add(other.y),
            z: self.z.add(other.z),
            w: self.w.add(other.w),
        }
    }

    /// Componentwise difference.
    pub fn sub(&self, other: &Self) -> (r: Self)
        requires
            seq_sub_ok::<T>(self@, other@),
        ensures
            r@ =~= seq_sub(self@, other@),
    {
        Self {
            x: self.x.sub(other.x),
            y: self.y.sub(other.y),
            z: self.z.sub(other.z),
            w: self.w.sub(other.w),
        }
    }

    /// The dot product: the sum of the componentwise products.
    pub fn dot(&self, other: &Self) -> (r: T)
        requires
            dot4_ok::<T>(self@, other@),
        ensures
            r.sval() == dot4(self@, other@),
    {
        self.x.mul(other.x).add(self.y.mul(other.y)).add(self.z.mul(other.z)).add(
            self.w.mul(other.w),
        )
    }

    /// Componentwise product with one scalar.
    pub fn scale(&self, a: T) -> (r: Self)
        requires
            seq_scale_ok::<T>(self@, a.sval()),
        ensures
            r@ =~= seq_scale(self@, a.sval()),
    {
        Self { x: self.x.mul(a), y: self.y.mul(a), z: self.z.mul(a), w: self.w.mul(a) }
    }

    /// Whether every pair of corresponding components differs by at most
    /// `eps` in absolute value.
    pub fn precision_eq(&self, other: &Self, eps: T) -> (r: bool)
        requires
            seq_sub_ok::<T>(self@, other@),
            seq_sub_ok::<T>(other@, self@),
        ensures
            r <==> seq_within(self@, other@, eps.sval()),
    {
        let r = diff_within(self.x, other.x, eps) && diff_within(self.y, other.y, eps)
            && diff_within(self.z, other.z, eps) && diff_within(self.w, other.w, eps);
        proof {
            assert(self@[0] == self.x.sval() && self@[1] == self.y.sval() && self@[2]
                == self.z.sval() && self@[3] == self.w.sval());
        }
        r
    }

    /// The largest absolute value among the components: the divisor of the
    /// max-abs normalization convention.
    pub fn max_abs(&self) -> (r: T)
        requires
            seq_neg_ok::<T>(self@),
        ensures
            r.sval() == max_abs4(self@),
    {
        max_val(
            max_val(max_val(abs_val(self.x), abs_val(self.y)), abs_val(self.z)),
            abs_val(self.w),
        )
    }
}

// ---------------------------------------------------------------------------
// Laws of the vector algebra.
// ---------------------------------------------------------------------------

/// Adding a vector and then subtracting it restores the original: the
/// inverse law of the elementwise algebra, exact for every scalar type this
/// library admits. It applies equally to the matrix grids, which share the
/// componentwise operations.
pub proof fn lemma_add_sub_inverse(v: Seq<int>, w: Seq<int>)
    requires
        v.len() == w.len(),
    ensures
        seq_sub(seq_add(v, w), w) =~= v,
{
}

/// Negating twice restores the original vector.
pub proof fn lemma_invert_involution(v: Seq<int>)
    ensures
        seq_neg(seq_neg(v)) =~= v,
{
}

/// The dot product of 2-component vectors is symmetric.
pub proof fn lemma_dot2_comm(v: Seq<int>, w: Seq<int>)
    requires
        v.len() == 2,
        w.len() == 2,
    ensures
        dot2(v, w) == dot2(w, v),
{
}

/// The dot product of 3-component vectors is symmetric.
pub proof fn lemma_dot3_comm(v: Seq<int>, w: Seq<int>)
    requires
        v.len() == 3,
        w.len() == 3,
    ensures
        dot3(v, w) == dot3(w, v),
{
}

/// The dot product of 4-component vectors is symmetric.
pub proof fn lemma_dot4_comm(v: Seq<int>, w: Seq<int>)
    requires
        v.len() == 4,
        w.len() == 4,
    ensures
        dot4(v, w) == dot4(w, v),
{
}

/// The zero vector dotted with itself is zero, in every dimension. The
/// magnitude of a vector is the square root of this self-dot-product, so the
/// magnitude of the zero vector is zero; taking the square root is floating
/// point work left to the caller.
pub proof fn lemma_zero_self_dot()
    ensures
        dot2(zero_seq(2), zero_seq(2)) == 0,
        dot3(zero_seq(3), zero_seq(3)) == 0,
        dot4(zero_seq(4), zero_seq(4)) == 0,
{
    assert(zero_seq(2)[0] == 0 && zero_seq(2)[1] == 0);
    assert(zero_seq(3)[0] == 0 && zero_seq(3)[1] == 0 && zero_seq(3)[2] == 0);
    assert(zero_seq(4)[0] == 0 && zero_seq(4)[1] == 0 && zero_seq(4)[2] == 0 && zero_seq(4)[3]
        == 0);
}

} // verus!
