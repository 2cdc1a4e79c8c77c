//! Three-by-three binary32 matrix, stored as rows.

use vstd::prelude::*;

use crate::scalar::add_bits;
use crate::scalar::mul_bits;
use crate::scalar::sub_bits;
use crate::scalar::F_ONE;
use crate::scalar::F_ZERO;
use crate::vector3::eq3;
use crate::vector3::Vector3;

verus! {

/// Three row vectors, stored in row order.
#[derive(Clone, Copy, Debug)]
pub struct Matrix3 {
    pub r1: Vector3,
    pub r2: Vector3,
    pub r3: Vector3,
}

impl View for Matrix3 {
    type V = Seq<Seq<u32>>;

    open spec fn view(&self) -> Seq<Seq<u32>> {
        seq![self.r1@, self.r2@, self.r3@]
    }
}

/// A row dotted with a column, summed left to right.
pub open spec fn row_dot3(r: Vector3, c0: u32, c1: u32, c2: u32) -> u32 {
    add_bits(add_bits(mul_bits(r.x, c0), mul_bits(r.y, c1)), mul_bits(r.z, c2))
}

/// Component-wise sum over the rows.
pub open spec fn m3_add(a: Matrix3, b: Matrix3) -> Matrix3 {
    Matrix3 {
        r1: Vector3 {
            x: add_bits(a.r1.x, b.r1.x),
            y: add_bits(a.r1.y, b.r1.y),
            z: add_bits(a.r1.z, b.r1.z),
        },
        r2: Vector3 {
            x: add_bits(a.r2.x, b.r2.x),
            y: add_bits(a.r2.y, b.r2.y),
            z: add_bits(a.r2.z, b.r2.z),
        },
        r3: Vector3 {
            x: add_bits(a.r3.x, b.r3.x),
            y: add_bits(a.r3.y, b.r3.y),
            z: add_bits(a.r3.z, b.r3.z),
        },
    }
}

/// Component-wise difference over the rows.
pub open spec fn m3_sub(a: Matrix3, b: Matrix3) -> Matrix3 {
    Matrix3 {
        r1: Vector3 {
            x: sub_bits(a.r1.x, b.r1.x),
            y: sub_bits(a.r1.y, b.r1.y),
            z: sub_bits(a.r1.z, b.r1.z),
        },
        r2: Vector3 {
            x: sub_bits(a.r2.x, b.r2.x),
            y: sub_bits(a.r2.y, b.r2.y),
            z: sub_bits(a.r2.z, b.r2.z),
        },
        r3: Vector3 {
            x: sub_bits(a.r3.x, b.r3.x),
            y: sub_bits(a.r3.y, b.r3.y),
            z: sub_bits(a.r3.z, b.r3.z),
        },
    }
}

/// Every component multiplied by the scalar.
pub open spec fn m3_mul_scalar(a: Matrix3, s: u32) -> Matrix3 {
    Matrix3 {
        r1: Vector3 { x: mul_bits(a.r1.x, s), y: mul_bits(a.r1.y, s), z: mul_bits(a.r1.z, s) },
        r2: Vector3 { x: mul_bits(a.r2.x, s), y: mul_bits(a.r2.y, s), z: mul_bits(a.r2.z, s) },
        r3: Vector3 { x: mul_bits(a.r3.x, s), y: mul_bits(a.r3.y, s), z: mul_bits(a.r3.z, s) },
    }
}

/// The row-by-column matrix product, each entry summed left to right. The
/// product is not commutative: the order of the operands is the order the
/// caller composed them in.
pub open spec fn m3_mul(a: Matrix3, b: Matrix3) -> Matrix3 {
    Matrix3 {
        r1: Vector3 {
            x: row_dot3(a.r1, b.r1.x, b.r2.x, b.r3.x),
            y: row_dot3(a.r1, b.r1.y, b.r2.y, b.r3.y),
            z: row_dot3(a.r1, b.r1.z, b.r2.z, b.r3.z),
        },
        r2: Vector3 {
            x: row_dot3(a.r2, b.r1.x, b.r2.x, b.r3.x),
            y: row_dot3(a.r2, b.r1.y, b.r2.y, b.r3.y),
            z: row_dot3(a.r2, b.r1.z, b.r2.z, b.r3.z),
        },
        r3: Vector3 {
            x: row_dot3(a.r3, b.r1.x, b.r2.x, b.r3.x),
            y: row_dot3(a.r3, b.r1.y, b.r2.y, b.r3.y),
            z: row_dot3(a.r3, b.r1.z, b.r2.z, b.r3.z),
        },
    }
}

/// The linear map: each result component is a row dotted with the vector,
/// summed left to right.
pub open spec fn m3_mul_vector(a: Matrix3, v: Vector3) -> Vector3 {
    Vector3 {
        x: row_dot3(a.r1, v.x, v.y, v.z),
        y: row_dot3(a.r2, v.x, v.y, v.z),
        z: row_dot3(a.r3, v.x, v.y, v.z),
    }
}

/// Rows and columns mirrored.
pub open spec fn m3_transposed(a: Matrix3) -> Matrix3 {
    Matrix3 {
        r1: Vector3 { x: a.r1.x, y: a.r2.x, z: a.r3.x },
        r2: Vector3 { x: a.r1.y, y: a.r2.y, z: a.r3.y },
        r3: Vector3 { x: a.r1.z, y: a.r2.z, z: a.r3.z },
    }
}

/// IEEE 754 equality, row by row.
pub open spec fn m3_eq(a: Matrix3, b: Matrix3) -> bool {
    eq3(a.r1, b.r1) && eq3(a.r2, b.r2) && eq3(a.r3, b.r3)
}

/// A row dotted with a column, summed left to right.
fn row_dot3_exec(r: Vector3, c0: u32, c1: u32, c2: u32) -> (d: u32)
    ensures
        d == row_dot3(r, c0, c1, c2),
{
    crate::scalar::add32(
        crate::scalar::add32(crate::scalar::mul32(r.x, c0), crate::scalar::mul32(r.y, c1)),
        crate::scalar::mul32(r.z, c2),
    )
}

impl Matrix3 {
    /// Builds the matrix from its rows, in row order.
    pub fn new(r1: Vector3, r2: Vector3, r3: Vector3) -> (r: Self)
        ensures
            r == (Matrix3 { r1, r2, r3 }),
    {
        Matrix3 { r1, r2, r3 }
    }

    /// The all-zero matrix.
    pub fn new_empty() -> (r: Self)
        ensures
            r == (Matrix3 {
                r1: Vector3 { x: F_ZERO, y: F_ZERO, z: F_ZERO },
                r2: Vector3 { x: F_ZERO, y: F_ZERO, z: F_ZERO },
                r3: Vector3 { x: F_ZERO, y: F_ZERO, z: F_ZERO },
            }),
    {
        Matrix3 {
            r1: Vector3 { x: F_ZERO, y: F_ZERO, z: F_ZERO },
            r2: Vector3 { x: F_ZERO, y: F_ZERO, z: F_ZERO },
            r3: Vector3 { x: F_ZERO, y: F_ZERO, z: F_ZERO },
        }
    }

    /// Ones on the diagonal, zeros elsewhere.
    pub fn new_identity() -> (r: Self)
        ensures
            r == (Matrix3 {
                r1: Vector3 { x: F_ONE, y: F_ZERO, z: F_ZERO },
                r2: Vector3 { x: F_ZERO, y: F_ONE, z: F_ZERO },
                r3: Vector3 { x: F_ZERO, y: F_ZERO, z: F_ONE },
            }),
    {
        Matrix3 {
            r1: Vector3 { x: F_ONE, y: F_ZERO, z: F_ZERO },
            r2: Vector3 { x: F_ZERO, y: F_ONE, z: F_ZERO },
            r3: Vector3 { x: F_ZERO, y: F_ZERO, z: F_ONE },
        }
    }

    /// Rows and columns mirrored.
    pub fn transposed(&self) -> (r: Matrix3)
        ensures
            r == m3_transposed(*self),
    {
        Matrix3 {
            r1: Vector3 { x: self.r1.x, y: self.r2.x, z: self.r3.x },
            r2: Vector3 { x: self.r1.y, y: self.r2.y, z: self.r3.y },
            r3: Vector3 { x: self.r1.z, y: self.r2.z, z: self.r3.z },
        }
    }

    /// Component-wise matrix sum.
    pub fn add(self, rhs: Matrix3) -> (r: Matrix3)
        ensures
            r == m3_add(self, rhs),
    {
        Matrix3 { r1: self.r1.add(rhs.r1), r2: self.r2.add(rhs.r2), r3: self.r3.add(rhs.r3) }
    }

    /// Component-wise matrix difference.
    pub fn sub(self, rhs: Matrix3) -> (r: Matrix3)
        ensures
            r == m3_sub(self, rhs),
    {
        Matrix3 { r1: self.r1.sub(rhs.r1), r2: self.r2.sub(rhs.r2), r3: self.r3.sub(rhs.r3) }
    }

    /// Every component multiplied by the scalar.
    pub fn mul_scalar(self, rhs: u32) -> (r: Matrix3)
        ensures
            r == m3_mul_scalar(self, rhs),
    {
        Matrix3 {
            r1: self.r1.mul_scalar(rhs),
            r2: self.r2.mul_scalar(rhs),
            r3: self.r3.mul_scalar(rhs),
        }
    }

    /// The row-by-column matrix product, in the operand order given.
    pub fn mul(self, rhs: Matrix3) -> (r: Matrix3)
        ensures
            r == m3_mul(self, rhs),
    {
        Matrix3 {
            r1: Vector3 {
                x: row_dot3_exec(self.r1, rhs.r1.x, rhs.r2.x, rhs.r3.x),
                y: row_dot3_exec(self.r1, rhs.r1.y, rhs.r2.y, rhs.r3.y),
                z: row_dot3_exec(self.r1, rhs.r1.z, rhs.r2.z, rhs.r3.z),
            },
            r2: Vector3 {
                x: row_dot3_exec(self.r2, rhs.r1.x, rhs.r2.x, rhs.r3.x),
                y: row_dot3_exec(self.r2, rhs.r1.y, rhs.r2.y, rhs.r3.y),
                z: row_dot3_exec(self.r2, rhs.r1.z, rhs.r2.z, rhs.r3.z),
            },
            r3: Vector3 {
                x: row_dot3_exec(self.r3, rhs.r1.x, rhs.r2.x, rhs.r3.x),
                y: row_dot3_exec(self.r3, rhs.r1.y, rhs.r2.y, rhs.r3.y),
                z: row_dot3_exec(self.r3, rhs.r1.z, rhs.r2.z, rhs.r3.z),
            },
        }
    }

    /// The linear map of the vector: each component a row dotted with it.
    pub fn mul_vector(self, rhs: Vector3) -> (r: Vector3)
        ensures
            r == m3_mul_vector(self, rhs),
    {
        Vector3 {
            x: row_dot3_exec(self.r1, rhs.x, rhs.y, rhs.z),
            y: row_dot3_exec(self.r2, rhs.x, rhs.y, rhs.z),
            z: row_dot3_exec(self.r3, rhs.x, rhs.y, rhs.z),
        }
    }
}

/// Mirroring rows and columns twice gives back exactly the matrix started
/// from, component for component.
pub proof fn lemma_transposed_involution3(m: Matrix3)
    ensures
        m3_transposed(m3_transposed(m)) == m,
{
}

impl PartialEq for Matrix3 {
    /// IEEE 754 equality on every row.
    fn eq(&self, other: &Matrix3) -> (r: bool) {
        self.r1 == other.r1 && self.r2 == other.r2 && self.r3 == other.r3
    }
}

impl vstd::std_specs::cmp::PartialEqSpecImpl for Matrix3 {
    open spec fn obeys_eq_spec() -> bool {
        true
    }

    open spec fn eq_spec(&self, other: &Matrix3) -> bool {
        m3_eq(*self, *other)
    }
}

} // verus!
