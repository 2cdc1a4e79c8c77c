//! Two-by-two binary32 matrix, stored as rows.

use vstd::prelude::*;

use crate::scalar::add_bits;
use crate::scalar::mul_bits;
use crate::scalar::sub_bits;
use crate::scalar::F_ONE;
use crate::scalar::F_ZERO;
use crate::vector2::eq2;
use crate::vector2::Vector2;

verus! {

/// Two row vectors, stored in row order.
#[derive(Clone, Copy, Debug)]
pub struct Matrix2 {
    pub r1: Vector2,
    pub r2: Vector2,
}

impl View for Matrix2 {
    type V = Seq<Seq<u32>>;

    open spec fn view(&self) -> Seq<Seq<u32>> {
        seq![self.r1@, self.r2@]
    }
}

/// Component-wise sum over the rows.
pub open spec fn m2_add(a: Matrix2, b: Matrix2) -> Matrix2 {
    Matrix2 {
        r1: Vector2 { x: add_bits(a.r1.x, b.r1.x), y: add_bits(a.r1.y, b.r1.y) },
        r2: Vector2 { x: add_bits(a.r2.x, b.r2.x), y: add_bits(a.r2.y, b.r2.y) },
    }
}

/// Component-wise difference over the rows.
pub open spec fn m2_sub(a: Matrix2, b: Matrix2) -> Matrix2 {
    Matrix2 {
        r1: Vector2 { x: sub_bits(a.r1.x, b.r1.x), y: sub_bits(a.r1.y, b.r1.y) },
        r2: Vector2 { x: sub_bits(a.r2.x, b.r2.x), y: sub_bits(a.r2.y, b.r2.y) },
    }
}

/// Every component multiplied by the scalar.
pub open spec fn m2_mul_scalar(a: Matrix2, s: u32) -> Matrix2 {
    Matrix2 {
        r1: Vector2 { x: mul_bits(a.r1.x, s), y: mul_bits(a.r1.y, s) },
        r2: Vector2 { x: mul_bits(a.r2.x, s), y: mul_bits(a.r2.y, s) },
    }
}

/// The row-by-column matrix product, each entry summed left to right. The
/// product is not commutative: the order of the operands is the order the
/// caller composed them in.
pub open spec fn m2_mul(a: Matrix2, b: Matrix2) -> Matrix2 {
    Matrix2 {
        r1: Vector2 {
            x: add_bits(mul_bits(a.r1.x, b.r1.x), mul_bits(a.r1.y, b.r2.x)),
            y: add_bits(mul_bits(a.r1.x, b.r1.y), mul_bits(a.r1.y, b.r2.y)),
        },
        r2: Vector2 {
            x: add_bits(mul_bits(a.r2.x, b.r1.x), mul_bits(a.r2.y, b.r2.x)),
            y: add_bits(mul_bits(a.r2.x, b.r1.y), mul_bits(a.r2.y, b.r2.y)),
        },
    }
}

/// The linear map: each result component is a row dotted with the vector,
/// summed left to right.
pub open spec fn m2_mul_vector(a: Matrix2, v: Vector2) -> Vector2 {
    Vector2 {
        x: add_bits(mul_bits(a.r1.x, v.x), mul_bits(a.r1.y, v.y)),
        y: add_bits(mul_bits(a.r2.x, v.x), mul_bits(a.r2.y, v.y)),
    }
}

/// IEEE 754 equality, row by row.
pub open spec fn m2_eq(a: Matrix2, b: Matrix2) -> bool {
    eq2(a.r1, b.r1) && eq2(a.r2, b.r2)
}

impl Matrix2 {
    /// Builds the matrix from its rows, in row order.
    pub fn new(r1: Vector2, r2: Vector2) -> (r: Self)
        ensures
            r == (Matrix2 { r1, r2 }),
    {
        Matrix2 { r1, r2 }
    }

    /// The all-zero matrix.
    pub fn new_empty() -> (r: Self)
        ensures
            r == (Matrix2 {
                r1: Vector2 { x: F_ZERO, y: F_ZERO },
                r2: Vector2 { x: F_ZERO, y: F_ZERO },
            }),
    {
        Matrix2 {
            r1: Vector2 { x: F_ZERO, y: F_ZERO },
            r2: Vector2 { x: F_ZERO, y: F_ZERO },
        }
    }

    /// Ones on the diagonal, zeros elsewhere.
    pub fn new_identity() -> (r: Self)
        ensures
            r == (Matrix2 {
                r1: Vector2 { x: F_ONE, y: F_ZERO },
                r2: Vector2 { x: F_ZERO, y: F_ONE },
            }),
    {
        Matrix2 {
            r1: Vector2 { x: F_ONE, y: F_ZERO },
            r2: Vector2 { x: F_ZERO, y: F_ONE },
        }
    }

    /// Component-wise matrix sum.
    pub fn add(self, rhs: Matrix2) -> (r: Matrix2)
        ensures
            r == m2_add(self, rhs),
    {
        Matrix2 { r1: self.r1.add(rhs.r1), r2: self.r2.add(rhs.r2) }
    }

    /// Component-wise matrix difference.
    pub fn sub(self, rhs: Matrix2) -> (r: Matrix2)
        ensures
            r == m2_sub(self, rhs),
    {
        Matrix2 { r1: self.r1.sub(rhs.r1), r2: self.r2.sub(rhs.r2) }
    }

    /// Every component multiplied by the scalar.
    pub fn mul_scalar(self, rhs: u32) -> (r: Matrix2)
        ensures
            r == m2_mul_scalar(self, rhs),
    {
        Matrix2 { r1: self.r1.mul_scalar(rhs), r2: self.r2.mul_scalar(rhs) }
    }

    /// The row-by-column matrix product, in the operand order given.
    pub fn mul(self, rhs: Matrix2) -> (r: Matrix2)
        ensures
            r == m2_mul(self, rhs),
    {
        let res1_1 = crate::scalar::add32(
            crate::scalar::mul32(self.r1.x, rhs.r1.x),
            crate::scalar::mul32(self.r1.y, rhs.r2.x),
        );
        let res1_2 = crate::scalar::add32(
            crate::scalar::mul32(self.r1.x, rhs.r1.y),
            crate::scalar::mul32(self.r1.y, rhs.r2.y),
        );
        let res2_1 = crate::scalar::add32(
            crate::scalar::mul32(self.r2.x, rhs.r1.x),
            crate::scalar::mul32(self.r2.y, rhs.r2.x),
        );
        let res2_2 = crate::scalar::add32(
            crate::scalar::mul32(self.r2.x, rhs.r1.y),
            crate::scalar::mul32(self.r2.y, rhs.r2.y),
        );
        Matrix2 {
            r1: Vector2 { x: res1_1, y: res1_2 },
            r2: Vector2 { x: res2_1, y: res2_2 },
        }
    }

    /// The linear map of the vector: each component a row dotted with it.
    pub fn mul_vector(self, rhs: Vector2) -> (r: Vector2)
        ensures
            r == m2_mul_vector(self, rhs),
    {
        Vector2 {
            x: crate::scalar::add32(
                crate::scalar::mul32(self.r1.x, rhs.x),
                crate::scalar::mul32(self.r1.y, rhs.y),
            ),
            y: crate::scalar::add32(
                crate::scalar::mul32(self.r2.x, rhs.x),
                crate::scalar::mul32(self.r2.y, rhs.y),
            ),
        }
    }
}

impl PartialEq for Matrix2 {
    /// IEEE 754 equality on every row.
    fn eq(&self, other: &Matrix2) -> (r: bool) {
        self.r1 == other.r1 && self.r2 == other.r2
    }
}

impl vstd::std_specs::cmp::PartialEqSpecImpl for Matrix2 {
    open spec fn obeys_eq_spec() -> bool {
        true
    }

    open spec fn eq_spec(&self, other: &Matrix2) -> bool {
        m2_eq(*self, *other)
    }
}

} // verus!
