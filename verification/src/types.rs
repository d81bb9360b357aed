//! The scalar abstraction: the numeric capability every vector and matrix
//! component must offer, stated over the mathematical integer each value
//! stands for.

use vstd::prelude::*;
use vstd::arithmetic::div_mod::{lemma_div_basics, lemma_div_nonincreasing, lemma_div_pos_is_pos};
use vstd::math::abs;

verus! {

/// Holds when the mathematical value `x` is representable in the scalar
/// type `T`.
pub open spec fn in_range<T: Scalar>(x: int) -> bool {
    T::min_val() <= x <= T::max_val()
}

/// Truncating division: the quotient rounded towards zero, as the division
/// operator of the machine integer types computes it. (`/` on `int` is
/// Euclidean division, which rounds down instead.)
pub open spec fn tdiv(a: int, b: int) -> int
    recommends
        b != 0,
{
    if a == 0 {
        0
    } else if a > 0 && b > 0 {
        a / b
    } else if a < 0 && b < 0 {
        (a * -1) / (b * -1)
    } else if a < 0 {
        ((a * -1) / b) * -1
    } else {
        (a / (b * -1)) * -1
    }
}

/// The magnitude of a truncated quotient never exceeds the magnitude of the
/// dividend.
pub proof fn lemma_tdiv_bounds(a: int, b: int)
    requires
        b != 0,
    ensures
        -abs(a) <= tdiv(a, b) <= abs(a),
{
    if a == 0 {
    } else if a > 0 && b > 0 {
        lemma_div_pos_is_pos(a, b);
        lemma_div_nonincreasing(a, b);
    } else if a < 0 && b < 0 {
        lemma_div_pos_is_pos(a * -1, b * -1);
        lemma_div_nonincreasing(a * -1, b * -1);
    } else if a < 0 {
        lemma_div_pos_is_pos(a * -1, b);
        lemma_div_nonincreasing(a * -1, b);
    } else {
        lemma_div_pos_is_pos(a, b * -1);
        lemma_div_nonincreasing(a, b * -1);
    }
}

/// Truncating division by one or by minus one is exact: it returns the
/// dividend or its negation.
pub proof fn lemma_tdiv_unit(a: int)
    ensures
        tdiv(a, 1) == a,
        tdiv(a, -1) == -a,
{
    lemma_div_basics(a);
    lemma_div_basics(a * -1);
}

/// The numeric capability a component type must offer: the five arithmetic
/// operations, a zero and a one, ordering and equality. Each operation is
/// specified through `sval`, the mathematical integer a value stands for,
/// and is total on the inputs whose exact result is representable.
pub trait Scalar: Sized + Copy {
    /// The mathematical value this scalar stands for.
    spec fn sval(self) -> int;

    /// The smallest representable value.
    spec fn min_val() -> int;

    /// The largest representable value.
    spec fn max_val() -> int;

    /// Every value of the type lies within its representable range.
    proof fn lemma_in_range(self)
        ensures
            Self::min_val() <= self.sval() <= Self::max_val(),
    ;

    /// The additive identity.
    fn zero() -> (r: Self)
        ensures
            r.sval() == 0,
    ;

    /// The multiplicative identity.
    fn one() -> (r: Self)
        ensures
            r.sval() == 1,
    ;

    fn add(self, other: Self) -> (r: Self)
        requires
            Self::min_val() <= self.sval() + other.sval() <= Self::max_val(),
        ensures
            r.sval() == self.sval() + other.sval(),
    ;

    fn sub(self, other: Self) -> (r: Self)
        requires
            Self::min_val() <= self.sval() - other.sval() <= Self::max_val(),
        ensures
            r.sval() == self.sval() - other.sval(),
    ;

    fn mul(self, other: Self) -> (r: Self)
        requires
            Self::min_val() <= self.sval() * other.sval() <= Self::max_val(),
        ensures
            r.sval() == self.sval() * other.sval(),
    ;

    /// Truncating division, as every machine integer type divides.
    fn div(self, other: Self) -> (r: Self)
        requires
            other.sval() != 0,
            Self::min_val() <= tdiv(self.sval(), other.sval()) <= Self::max_val(),
        ensures
            r.sval() == tdiv(self.sval(), other.sval()),
    ;

    /// Unary negation.
    fn neg(self) -> (r: Self)
        requires
            Self::min_val() <= -self.sval() <= Self::max_val(),
        ensures
            r.sval() == -self.sval(),
    ;

    fn le(self, other: Self) -> (r: bool)
        ensures
            r <==> self.sval() <= other.sval(),
    ;

    fn eq_val(self, other: Self) -> (r: bool)
        ensures
            r <==> self.sval() == other.sval(),
    ;
}

impl Scalar for i64 {
    open spec fn sval(self) -> int {
        self as int
    }

    open spec fn min_val() -> int {
        i64::MIN as int
    }

    open spec fn max_val() -> int {
        i64::MAX as int
    }

    proof fn lemma_in_range(self) {
    }

    fn zero() -> Self {
        0
    }

    fn one() -> Self {
        1
    }

    fn add(self, other: Self) -> Self {
        self + other
    }

    fn sub(self, other: Self) -> Self {
        self - other
    }

    fn mul(self, other: Self) -> Self {
        self * other
    }

    fn div(self, other: Self) -> Self {
        match self.checked_div(other) {
            Some(q) => q,
            None => unreached(),
        }
    }

    fn neg(self) -> Self {
        -self
    }

    fn le(self, other: Self) -> bool {
        self <= other
    }

    fn eq_val(self, other: Self) -> bool {
        self == other
    }
}

impl Scalar for i8 {
    open spec fn sval(self) -> int {
        self as int
    }

    open spec fn min_val() -> int {
        i8::MIN as int
    }

    open spec fn max_val() -> int {
        i8::MAX as int
    }

    proof fn lemma_in_range(self) {
    }

    fn zero() -> Self {
        0
    }

    fn one() -> Self {
        1
    }

    fn add(self, other: Self) -> Self {
        self + other
    }

    fn sub(self, other: Self) -> Self {
        self - other
    }

    fn mul(self, other: Self) -> Self {
        self * other
    }

    fn div(self, other: Self) -> Self {
        match self.checked_div(other) {
            Some(q) => q,
            None => unreached(),
        }
    }

    fn neg(self) -> Self {
        -self
    }

    fn le(self, other: Self) -> bool {
        self <= other
    }

    fn eq_val(self, other: Self) -> bool {
        self == other
    }
}

impl Scalar for i16 {
    open spec fn sval(self) -> int {
        self as int
    }

    open spec fn min_val() -> int {
        i16::MIN as int
    }

    open spec fn max_val() -> int {
        i16::MAX as int
    }

    proof fn lemma_in_range(self) {
    }

    fn zero() -> Self {
        0
    }

    fn one() -> Self {
        1
    }

    fn add(self, other: Self) -> Self {
        self + other
    }

    fn sub(self, other: Self) -> Self {
        self - other
    }

    fn mul(self, other: Self) -> Self {
        self * other
    }

    fn div(self, other: Self) -> Self {
        match self.checked_div(other) {
            Some(q) => q,
            None => unreached(),
        }
    }

    fn neg(self) -> Self {
        -self
    }

    fn le(self, other: Self) -> bool {
        self <= other
    }

    fn eq_val(self, other: Self) -> bool {
        self == other
    }
}

impl Scalar for i32 {
    open spec fn sval(self) -> int {
        self as int
    }

    open spec fn min_val() -> int {
        i32::MIN as int
    }

    open spec fn max_val() -> int {
        i32::MAX as int
    }

    proof fn lemma_in_range(self) {
    }

    fn zero() -> Self {
        0
    }

    fn one() -> Self {
        1
    }

    fn add(self, other: Self) -> Self {
        self + other
    }

    fn sub(self, other: Self) -> Self {
        self - other
    }

    fn mul(self, other: Self) -> Self {
        self * other
    }

    fn div(self, other: Self) -> Self {
        match self.checked_div(other) {
            Some(q) => q,
            None => unreached(),
        }
    }

    fn neg(self) -> Self {
        -self
    }

    fn le(self, other: Self) -> bool {
        self <= other
    }

    fn eq_val(self, other: Self) -> bool {
        self == other
    }
}

impl Scalar for i128 {
    open spec fn sval(self) -> int {
        self as int
    }

    open spec fn min_val() -> int {
        i128::MIN as int
    }

    open spec fn max_val() -> int {
        i128::MAX as int
    }

    proof fn lemma_in_range(self) {
    }

    fn zero() -> Self {
        0
    }

    fn one() -> Self {
        1
    }

    fn add(self, other: Self) -> Self {
        self + other
    }

    fn sub(self, other: Self) -> Self {
        self - other
    }

    fn mul(self, other: Self) -> Self {
        self * other
    }

    fn div(self, other: Self) -> Self {
        match self.checked_div(other) {
            Some(q) => q,
            None => unreached(),
        }
    }

    fn neg(self) -> Self {
        -self
    }

    fn le(self, other: Self) -> bool {
        self <= other
    }

    fn eq_val(self, other: Self) -> bool {
        self == other
    }
}

} // verus!
