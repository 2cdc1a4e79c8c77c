//! Four-by-four binary32 matrix, stored as rows, with the perspective
//! projection constructor.

use vstd::prelude::*;

use crate::scalar::add_bits;
use crate::scalar::div_bits;
use crate::scalar::mul_bits;
use crate::scalar::neg_bits;
use crate::scalar::sub_bits;
use crate::scalar::F_ONE;
use crate::scalar::F_TWO;
use crate::scalar::F_ZERO;
use crate::vector4::eq4;
use crate::vector4::Vector4;

verus! {

/// Four row vectors, stored in row order.
#[derive(Clone, Copy, Debug)]
pub struct Matrix4 {
    pub r1: Vector4,
    pub r2: Vector4,
    pub r3: Vector4,
    pub r4: Vector4,
}

impl View for Matrix4 {
    type V = Seq<Seq<u32>>;

    open spec fn view(&self) -> Seq<Seq<u32>> {
        seq![self.r1@, self.r2@, self.r3@, self.r4@]
    }
}

/// A row dotted with a column, summed left to right.
pub open spec fn row_dot4(r: Vector4, c0: u32, c1: u32, c2: u32, c3: u32) -> u32 {
    add_bits(
        add_bits(add_bits(mul_bits(r.x, c0), mul_bits(r.y, c1)), mul_bits(r.z, c2)),
        mul_bits(r.w, c3),
    )
}

/// Component-wise sum over the rows.
pub open spec fn m4_add(a: Matrix4, b: Matrix4) -> Matrix4 {
    Matrix4 {
        r1: Vector4 {
            x: add_bits(a.r1.x, b.r1.x),
            y: add_bits(a.r1.y, b.r1.y),
            z: add_bits(a.r1.z, b.r1.z),
            w: add_bits(a.r1.w, b.r1.w),
        },
        r2: Vector4 {
            x: add_bits(a.r2.x, b.r2.x),
            y: add_bits(a.r2.y, b.r2.y),
            z: add_bits(a.r2.z, b.r2.z),
            w: add_bits(a.r2.w, b.r2.w),
        },
        r3: Vector4 {
            x: add_bits(a.r3.x, b.r3.x),
            y: add_bits(a.r3.y, b.r3.y),
            z: add_bits(a.r3.z, b.r3.z),
            w: add_bits(a.r3.w, b.r3.w),
        },
        r4: Vector4 {
            x: add_bits(a.r4.x, b.r4.x),
            y: add_bits(a.r4.y, b.r4.y),
            z: add_bits(a.r4.z, b.r4.z),
            w: add_bits(a.r4.w, b.r4.w),
        },
    }
}

/// Component-wise difference over the rows.
pub open spec fn m4_sub(a: Matrix4, b: Matrix4) -> Matrix4 {
    Matrix4 {
        r1: Vector4 {
            x: sub_bits(a.r1.x, b.r1.x),
            y: sub_bits(a.r1.y, b.r1.y),
            z: sub_bits(a.r1.z, b.r1.z),
            w: sub_bits(a.r1.w, b.r1.w),
        },
        r2: Vector4 {
            x: sub_bits(a.r2.x, b.r2.x),
            y: sub_bits(a.r2.y, b.r2.y),
            z: sub_bits(a.r2.z, b.r2.z),
            w: sub_bits(a.r2.w, b.r2.w),
        },
        r3: Vector4 {
            x: sub_bits(a.r3.x, b.r3.x),
            y: sub_bits(a.r3.y, b.r3.y),
            z: sub_bits(a.r3.z, b.r3.z),
            w: sub_bits(a.r3.w, b.r3.w),
        },
        r4: Vector4 {
            x: sub_bits(a.r4.x, b.r4.x),
            y: sub_bits(a.r4.y, b.r4.y),
            z: sub_bits(a.r4.z, b.r4.z),
            w: sub_bits(a.r4.w, b.r4.w),
        },
    }
}

/// Every component multiplied by the scalar.
pub open spec fn m4_mul_scalar(a: Matrix4, s: u32) -> Matrix4 {
    Matrix4 {
        r1: Vector4 {
            x: mul_bits(a.r1.x, s),
            y: mul_bits(a.r1.y, s),
            z: mul_bits(a.r1.z, s),
            w: mul_bits(a.r1.w, s),
        },
        r2: Vector4 {
            x: mul_bits(a.r2.x, s),
            y: mul_bits(a.r2.y, s),
            z: mul_bits(a.r2.z, s),
            w: mul_bits(a.r2.w, s),
        },
        r3: Vector4 {
            x: mul_bits(a.r3.x, s),
            y: mul_bits(a.r3.y, s),
            z: mul_bits(a.r3.z, s),
            w: mul_bits(a.r3.w, s),
        },
        r4: Vector4 {
            x: mul_bits(a.r4.x, s),
            y: mul_bits(a.r4.y, s),
            z: mul_bits(a.r4.z, s),
            w: mul_bits(a.r4.w, s),
        },
    }
}

/// The row-by-column matrix product, each entry summed left to right. The
/// product is not commutative: the order of the operands is the order the
/// caller composed them in.
pub open spec fn m4_mul(a: Matrix4, b: Matrix4) -> Matrix4 {
    Matrix4 {
        r1: Vector4 {
            x: row_dot4(a.r1, b.r1.x, b.r2.x, b.r3.x, b.r4.x),
            y: row_dot4(a.r1, b.r1.y, b.r2.y, b.r3.y, b.r4.y),
            z: row_dot4(a.r1, b.r1.z, b.r2.z, b.r3.z, b.r4.z),
            w: row_dot4(a.r1, b.r1.w, b.r2.w, b.r3.w, b.r4.w),
        },
        r2: Vector4 {
            x: row_dot4(a.r2, b.r1.x, b.r2.x, b.r3.x, b.r4.x),
            y: row_dot4(a.r2, b.r1.y, b.r2.y, b.r3.y, b.r4.y),
            z: row_dot4(a.r2, b.r1.z, b.r2.z, b.r3.z, b.r4.z),
            w: row_dot4(a.r2, b.r1.w, b.r2.w, b.r3.w, b.r4.w),
        },
        r3: Vector4 {
            x: row_dot4(a.r3, b.r1.x, b.r2.x, b.r3.x, b.r4.x),
            y: row_dot4(a.r3, b.r1.y, b.r2.y, b.r3.y, b.r4.y),
            z: row_dot4(a.r3, b.r1.z, b.r2.z, b.r3.z, b.r4.z),
            w: row_dot4(a.r3, b.r1.w, b.r2.w, b.r3.w, b.r4.w),
        },
        r4: Vector4 {
            x: row_dot4(a.r4, b.r1.x, b.r2.x, b.r3.x, b.r4.x),
            y: row_dot4(a.r4, b.r1.y, b.r2.y, b.r3.y, b.r4.y),
            z: row_dot4(a.r4, b.r1.z, b.r2.z, b.r3.z, b.r4.z),
            w: row_dot4(a.r4, b.r1.w, b.r2.w, b.r3.w, b.r4.w),
        },
    }
}

/// The linear map: each result component is a row dotted with the vector,
/// summed left to right.
pub open spec fn m4_mul_vector(a: Matrix4, v: Vector4) -> Vector4 {
    Vector4 {
        x: row_dot4(a.r1, v.x, v.y, v.z, v.w),
        y: row_dot4(a.r2, v.x, v.y, v.z, v.w),
        z: row_dot4(a.r3, v.x, v.y, v.z, v.w),
        w: row_dot4(a.r4, v.x, v.y, v.z, v.w),
    }
}

/// Rows and columns mirrored.
pub open spec fn m4_transposed(a: Matrix4) -> Matrix4 {
    Matrix4 {
        r1: Vector4 { x: a.r1.x, y: a.r2.x, z: a.r3.x, w: a.r4.x },
        r2: Vector4 { x: a.r1.y, y: a.r2.y, z: a.r3.y, w: a.r4.y },
        r3: Vector4 { x: a.r1.z, y: a.r2.z, z: a.r3.z, w: a.r4.z },
        r4: Vector4 { x: a.r1.w, y: a.r2.w, z: a.r3.w, w: a.r4.w },
    }
}

/// The standard right-handed perspective projection over the tangent of the
/// half field of view:
/// row 1: (1/(aspect*t), 0, 0, 0); row 2: (0, 1/t, 0, 0);
/// row 3: (0, 0, -(far+near)/(far-near), -(2*far*near)/(far-near));
/// row 4: (0, 0, -1, 0).
pub open spec fn m4_perspective(t: u32, aspect: u32, near: u32, far: u32) -> Matrix4 {
    Matrix4 {
        r1: Vector4 {
            x: div_bits(F_ONE, mul_bits(aspect, t)),
            y: F_ZERO,
            z: F_ZERO,
            w: F_ZERO,
        },
        r2: Vector4 { x: F_ZERO, y: div_bits(F_ONE, t), z: F_ZERO, w: F_ZERO },
        r3: Vector4 {
            x: F_ZERO,
            y: F_ZERO,
            z: div_bits(neg_bits(add_bits(far, near)), sub_bits(far, near)),
            w: div_bits(neg_bits(mul_bits(mul_bits(F_TWO, far), near)), sub_bits(far, near)),
        },
        r4: Vector4 { x: F_ZERO, y: F_ZERO, z: neg_bits(F_ONE), w: F_ZERO },
    }
}

/// IEEE 754 equality, row by row.
pub open spec fn m4_eq(a: Matrix4, b: Matrix4) -> bool {
    eq4(a.r1, b.r1) && eq4(a.r2, b.r2) && eq4(a.r3, b.r3) && eq4(a.r4, b.r4)
}

/// A row dotted with a column, summed left to right.
fn row_dot4_exec(r: Vector4, c0: u32, c1: u32, c2: u32, c3: u32) -> (d: u32)
    ensures
        d == row_dot4(r, c0, c1, c2, c3),
{
    crate::scalar::add32(
        crate::scalar::add32(
            crate::scalar::add32(crate::scalar::mul32(r.x, c0), crate::scalar::mul32(r.y, c1)),
            crate::scalar::mul32(r.z, c2),
        ),
        crate::scalar::mul32(r.w, c3),
    )
}

impl Matrix4 {
    /// Builds the matrix from its rows, in row order.
    pub fn new(r1: Vector4, r2: Vector4, r3: Vector4, r4: Vector4) -> (r: Self)
        ensures
            r == (Matrix4 { r1, r2, r3, r4 }),
    {
        Matrix4 { r1, r2, r3, r4 }
    }

    /// The standard right-handed perspective projection. The first argument
    /// is the tangent of half the vertical field of view, already computed by
    /// the caller (the tangent itself is trigonometry that this core does not
    /// do). Nothing validates the aspect ratio or the plane order: malformed
    /// arguments silently give a degenerate matrix through ordinary IEEE 754
    /// arithmetic, exactly as the formula dictates.
    pub fn new_perspective(tan_half_fov: u32, aspect: u32, near: u32, far: u32) -> (r: Self)
        ensures
            r == m4_perspective(tan_half_fov, aspect, near, far),
    {
        let denom = crate::scalar::sub32(far, near);
        Matrix4 {
            r1: Vector4 {
                x: crate::scalar::div32(F_ONE, crate::scalar::mul32(aspect, tan_half_fov)),
                y: F_ZERO,
                z: F_ZERO,
                w: F_ZERO,
            },
            r2: Vector4 {
                x: F_ZERO,
                y: crate::scalar::div32(F_ONE, tan_half_fov),
                z: F_ZERO,
                w: F_ZERO,
            },
            r3: Vector4 {
                x: F_ZERO,
                y: F_ZERO,
                z: crate::scalar::div32(
                    crate::scalar::neg32(crate::scalar::add32(far, near)),
                    denom,
                ),
                w: crate::scalar::div32(
                    crate::scalar::neg32(
                        crate::scalar::mul32(crate::scalar::mul32(F_TWO, far), near),
                    ),
                    denom,
                ),
            },
            r4: Vector4 { x: F_ZERO, y: F_ZERO, z: crate::scalar::neg32(F_ONE), w: F_ZERO },
        }
    }

    /// The all-zero matrix.
    pub fn new_empty() -> (r: Self)
        ensures
            r == (Matrix4 {
                r1: Vector4 { x: F_ZERO, y: F_ZERO, z: F_ZERO, w: F_ZERO },
                r2: Vector4 { x: F_ZERO, y: F_ZERO, z: F_ZERO, w: F_ZERO },
                r3: Vector4 { x: F_ZERO, y: F_ZERO, z: F_ZERO, w: F_ZERO },
                r4: Vector4 { x: F_ZERO, y: F_ZERO, z: F_ZERO, w: F_ZERO },
            }),
    {
        Matrix4 {
            r1: Vector4 { x: F_ZERO, y: F_ZERO, z: F_ZERO, w: F_ZERO },
            r2: Vector4 { x: F_ZERO, y: F_ZERO, z: F_ZERO, w: F_ZERO },
            r3: Vector4 { x: F_ZERO, y: F_ZERO, z: F_ZERO, w: F_ZERO },
            r4: Vector4 { x: F_ZERO, y: F_ZERO, z: F_ZERO, w: F_ZERO },
        }
    }

    /// Ones on the diagonal, zeros elsewhere.
    pub fn new_identity() -> (r: Self)
        ensures
            r == (Matrix4 {
                r1: Vector4 { x: F_ONE, y: F_ZERO, z: F_ZERO, w: F_ZERO },
                r2: Vector4 { x: F_ZERO, y: F_ONE, z: F_ZERO, w: F_ZERO },
                r3: Vector4 { x: F_ZERO, y: F_ZERO, z: F_ONE, w: F_ZERO },
                r4: Vector4 { x: F_ZERO, y: F_ZERO, z: F_ZERO, w: F_ONE },
            }),
    {
        Matrix4 {
            r1: Vector4 { x: F_ONE, y: F_ZERO, z: F_ZERO, w: F_ZERO },
            r2: Vector4 { x: F_ZERO, y: F_ONE, z: F_ZERO, w: F_ZERO },
            r3: Vector4 { x: F_ZERO, y: F_ZERO, z: F_ONE, w: F_ZERO },
            r4: Vector4 { x: F_ZERO, y: F_ZERO, z: F_ZERO, w: F_ONE },
        }
    }

    /// Rows and columns mirrored. The matrix itself stays row-major: callers
    /// that hand the data to a column-major consumer transpose at that
    /// boundary, not here.
    pub fn transposed(&self) -> (r: Matrix4)
        ensures
            r == m4_transposed(*self),
    {
        Matrix4 {
            r1: Vector4 { x: self.r1.x, y: self.r2.x, z: self.r3.x, w: self.r4.x },
            r2: Vector4 { x: self.r1.y, y: self.r2.y, z: self.r3.y, w: self.r4.y },
            r3: Vector4 { x: self.r1.z, y: self.r2.z, z: self.r3.z, w: self.r4.z },
            r4: Vector4 { x: self.r1.w, y: self.r2.w, z: self.r3.w, w: self.r4.w },
        }
    }

    /// Component-wise matrix sum.
    pub fn add(self, rhs: Matrix4) -> (r: Matrix4)
        ensures
            r == m4_add(self, rhs),
    {
        Matrix4 {
            r1: self.r1.add(rhs.r1),
            r2: self.r2.add(rhs.r2),
            r3: self.r3.add(rhs.r3),
            r4: self.r4.add(rhs.r4),
        }
    }

    /// Component-wise matrix difference.
    pub fn sub(self, rhs: Matrix4) -> (r: Matrix4)
        ensures
            r == m4_sub(self, rhs),
    {
        Matrix4 {
            r1: self.r1.sub(rhs.r1),
            r2: self.r2.sub(rhs.r2),
            r3: self.r3.sub(rhs.r3),
            r4: self.r4.sub(rhs.r4),
        }
    }

    /// Every component multiplied by the scalar.
    pub fn mul_scalar(self, rhs: u32) -> (r: Matrix4)
        ensures
            r == m4_mul_scalar(self, rhs),
    {
        Matrix4 {
            r1: self.r1.mul_scalar(rhs),
            r2: self.r2.mul_scalar(rhs),
            r3: self.r3.mul_scalar(rhs),
            r4: self.r4.mul_scalar(rhs),
        }
    }

    /// The row-by-column matrix product, in the operand order given.
    pub fn mul(self, rhs: Matrix4) -> (r: Matrix4)
        ensures
            r == m4_mul(self, rhs),
    {
        Matrix4 {
            r1: Vector4 {
                x: row_dot4_exec(self.r1, rhs.r1.x, rhs.r2.x, rhs.r3.x, rhs.r4.x),
                y: row_dot4_exec(self.r1, rhs.r1.y, rhs.r2.y, rhs.r3.y, rhs.r4.y),
                z: row_dot4_exec(self.r1, rhs.r1.z, rhs.r2.z, rhs.r3.z, rhs.r4.z),
                w: row_dot4_exec(self.r1, rhs.r1.w, rhs.r2.w, rhs.r3.w, rhs.r4.w),
            },
            r2: Vector4 {
                x: row_dot4_exec(self.r2, rhs.r1.x, rhs.r2.x, rhs.r3.x, rhs.r4.x),
                y: row_dot4_exec(self.r2, rhs.r1.y, rhs.r2.y, rhs.r3.y, rhs.r4.y),
                z: row_dot4_exec(self.r2, rhs.r1.z, rhs.r2.z, rhs.r3.z, rhs.r4.z),
                w: row_dot4_exec(self.r2, rhs.r1.w, rhs.r2.w, rhs.r3.w, rhs.r4.w),
            },
            r3: Vector4 {
                x: row_dot4_exec(self.r3, rhs.r1.x, rhs.r2.x, rhs.r3.x, rhs.r4.x),
                y: row_dot4_exec(self.r3, rhs.r1.y, rhs.r2.y, rhs.r3.y, rhs.r4.y),
                z: row_dot4_exec(self.r3, rhs.r1.z, rhs.r2.z, rhs.r3.z, rhs.r4.z),
                w: row_dot4_exec(self.r3, rhs.r1.w, rhs.r2.w, rhs.r3.w, rhs.r4.w),
            },
            r4: Vector4 {
                x: row_dot4_exec(self.r4, rhs.r1.x, rhs.r2.x, rhs.r3.x, rhs.r4.x),
                y: row_dot4_exec(self.r4, rhs.r1.y, rhs.r2.y, rhs.r3.y, rhs.r4.y),
                z: row_dot4_exec(self.r4, rhs.r1.z, rhs.r2.z, rhs.r3.z, rhs.r4.z),
                w: row_dot4_exec(self.r4, rhs.r1.w, rhs.r2.w, rhs.r3.w, rhs.r4.w),
            },
        }
    }

    /// The linear map of the vector: each component a row dotted with it.
    pub fn mul_vector(self, rhs: Vector4) -> (r: Vector4)
        ensures
            r == m4_mul_vector(self, rhs),
    {
        Vector4 {
            x: row_dot4_exec(self.r1, rhs.x, rhs.y, rhs.z, rhs.w),
            y: row_dot4_exec(self.r2, rhs.x, rhs.y, rhs.z, rhs.w),
            z: row_dot4_exec(self.r3, rhs.x, rhs.y, rhs.z, rhs.w),
            w: row_dot4_exec(self.r4, rhs.x, rhs.y, rhs.z, rhs.w),
        }
    }

    /// The sixteen component bit patterns, row-major, in declared order:
    /// the flat form in which the matrix is handed to a graphics API (which
    /// transposes at that boundary if it wants columns).
    pub fn flat(&self) -> (r: Vec<u32>)
        ensures
            r@ == self.r1@ + self.r2@ + self.r3@ + self.r4@,
    {
        let mut out: Vec<u32> = Vec::new();
        out.push(self.r1.x);
        out.push(self.r1.y);
        out.push(self.r1.z);
        out.push(self.r1.w);
        out.push(self.r2.x);
        out.push(self.r2.y);
        out.push(self.r2.z);
        out.push(self.r2.w);
        out.push(self.r3.x);
        out.push(self.r3.y);
        out.push(self.r3.z);
        out.push(self.r3.w);
        out.push(self.r4.x);
        out.push(self.r4.y);
        out.push(self.r4.z);
        out.push(self.r4.w);
        proof {
            assert(out@ =~= self.r1@ + self.r2@ + self.r3@ + self.r4@);
        }
        out
    }
}

/// Mirroring rows and columns twice gives back exactly the matrix started
/// from, component for component.
pub proof fn lemma_transposed_involution4(m: Matrix4)
    ensures
        m4_transposed(m4_transposed(m)) == m,
{
}

impl PartialEq for Matrix4 {
    /// IEEE 754 equality on every row.
    fn eq(&self, other: &Matrix4) -> (r: bool) {
        self.r1 == other.r1 && self.r2 == other.r2 && self.r3 == other.r3
            && self.r4 == other.r4
    }
}

impl vstd::std_specs::cmp::PartialEqSpecImpl for Matrix4 {
    open spec fn obeys_eq_spec() -> bool {
        true
    }

    open spec fn eq_spec(&self, other: &Matrix4) -> bool {
        m4_eq(*self, *other)
    }
}

} // verus!
