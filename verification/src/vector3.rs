//! Three-component binary32 vector, with the cross product.

use vstd::prelude::*;

use crate::scalar::add_bits;
use crate::scalar::div_bits;
use crate::scalar::eq_bits;
use crate::scalar::mul_bits;
use crate::scalar::neg_bits;
use crate::scalar::sqrt_bits;
use crate::scalar::sub_bits;
use crate::vector2::Vector2;

verus! {

/// An ordered triple of binary32 components, each carried as its bit pattern.
#[derive(Clone, Copy, Debug)]
pub struct Vector3 {
    pub x: u32,
    pub y: u32,
    pub z: u32,
}

impl View for Vector3 {
    type V = Seq<u32>;

    open spec fn view(&self) -> Seq<u32> {
        seq![self.x, self.y, self.z]
    }
}

/// The squared Euclidean norm: x**2 + y**2 + z**2, summed left to right.
pub open spec fn norm_sq3(v: Vector3) -> u32 {
    add_bits(add_bits(mul_bits(v.x, v.x), mul_bits(v.y, v.y)), mul_bits(v.z, v.z))
}

/// The Euclidean norm: the square root of the summed squares.
pub open spec fn len3(v: Vector3) -> u32 {
    sqrt_bits(norm_sq3(v))
}

/// The dot product: component products summed left to right.
pub open spec fn dot3(a: Vector3, b: Vector3) -> u32 {
    add_bits(add_bits(mul_bits(a.x, b.x), mul_bits(a.y, b.y)), mul_bits(a.z, b.z))
}

/// Every component divided by the norm.
pub open spec fn normalized3(v: Vector3) -> Vector3 {
    Vector3 {
        x: div_bits(v.x, len3(v)),
        y: div_bits(v.y, len3(v)),
        z: div_bits(v.z, len3(v)),
    }
}

/// IEEE 754 equality, component by component.
pub open spec fn eq3(a: Vector3, b: Vector3) -> bool {
    eq_bits(a.x, b.x) && eq_bits(a.y, b.y) && eq_bits(a.z, b.z)
}

/// The degenerate case of the cross product: the operands' normalized forms
/// are equal component for component under IEEE 754 equality, which is to say
/// the operands point the same way. The check is this exact equality, not a
/// magnitude heuristic, so very large collinear operands are caught even
/// where their raw cross product is far from zero.
pub open spec fn parallel3(a: Vector3, b: Vector3) -> bool {
    eq3(normalized3(a), normalized3(b))
}

/// The right-handed cross product of the two operands, component by
/// component: (y1*z2 - z1*y2, z1*x2 - x1*z2, x1*y2 - y1*x2).
pub open spec fn cross3(a: Vector3, b: Vector3) -> Vector3 {
    Vector3 {
        x: sub_bits(mul_bits(a.y, b.z), mul_bits(a.z, b.y)),
        y: sub_bits(mul_bits(a.z, b.x), mul_bits(a.x, b.z)),
        z: sub_bits(mul_bits(a.x, b.y), mul_bits(a.y, b.x)),
    }
}

impl Vector3 {
    /// Builds the vector with the given component bits.
    pub fn new(x: u32, y: u32, z: u32) -> (r: Self)
        ensures
            r == (Vector3 { x, y, z }),
    {
        Self { x, y, z }
    }

    /// The Euclidean norm; the norm of a zero vector is zero, and the
    /// operation never fails.
    pub fn length(&self) -> (r: u32)
        ensures
            r == len3(*self),
    {
        let sum_squares = crate::scalar::add32(
            crate::scalar::add32(
                crate::scalar::mul32(self.x, self.x),
                crate::scalar::mul32(self.y, self.y),
            ),
            crate::scalar::mul32(self.z, self.z),
        );
        crate::scalar::sqrt32(sum_squares)
    }

    /// The first component.
    pub fn x(&self) -> (r: u32)
        ensures
            r == self.x,
    {
        self.x
    }

    /// The second component.
    pub fn y(&self) -> (r: u32)
        ensures
            r == self.y,
    {
        self.y
    }

    /// The third component.
    pub fn z(&self) -> (r: u32)
        ensures
            r == self.z,
    {
        self.z
    }

    /// The dot product, summed left to right; commuting the operands commutes
    /// every product and sum operand for operand.
    pub fn dot(&self, other: &Vector3) -> (r: u32)
        ensures
            r == dot3(*self, *other),
    {
        crate::scalar::add32(
            crate::scalar::add32(
                crate::scalar::mul32(self.x, other.x),
                crate::scalar::mul32(self.y, other.y),
            ),
            crate::scalar::mul32(self.z, other.z),
        )
    }

    /// Every component divided by the norm. A zero-length vector divides by
    /// zero and yields NaN components per IEEE 754; nothing is clamped.
    pub fn normalized(&self) -> (r: Vector3)
        ensures
            r == normalized3(*self),
    {
        let len = self.length();
        Self {
            x: crate::scalar::div32(self.x, len),
            y: crate::scalar::div32(self.y, len),
            z: crate::scalar::div32(self.z, len),
        }
    }

    /// The cross product. Parallel operands (equal normalized forms, by the
    /// exact equality check) are a caller bug: the operation
    /// has no meaningful direction to return, so it halts the program rather
    /// than hand back a degenerate vector. Verified callers are therefore
    /// required to rule that case out; `checked_cross` tests it at run time
    /// instead.
    pub fn cross(&self, other: &Vector3) -> (r: Vector3)
        requires
            !parallel3(*self, *other),
        ensures
            r == cross3(*self, *other),
    {
        if self.normalized() == other.normalized() {
            // The precondition rules this branch out; an unverified caller
            // that breaks it halts here, as the degenerate cross product is
            // a programming error and not a value to propagate.
            vstd::pervasive::unreached()
        } else {
            Self {
                x: crate::scalar::sub32(
                    crate::scalar::mul32(self.y, other.z),
                    crate::scalar::mul32(self.z, other.y),
                ),
                y: crate::scalar::sub32(
                    crate::scalar::mul32(self.z, other.x),
                    crate::scalar::mul32(self.x, other.z),
                ),
                z: crate::scalar::sub32(
                    crate::scalar::mul32(self.x, other.y),
                    crate::scalar::mul32(self.y, other.x),
                ),
            }
        }
    }

    /// The cross product behind a run-time test of the parallel-vector
    /// precondition: `None` exactly on the degenerate operands on which
    /// `cross` would halt, `Some` of the cross product on all others.
    pub fn checked_cross(&self, other: &Vector3) -> (r: Option<Vector3>)
        ensures
            r == if parallel3(*self, *other) {
                Option::<Vector3>::None
            } else {
                Option::Some(cross3(*self, *other))
            },
    {
        if self.normalized() == other.normalized() {
            None
        } else {
            Some(self.cross(other))
        }
    }

    /// Component-wise vector sum.
    pub fn add(self, rhs: Vector3) -> (r: Vector3)
        ensures
            r == (Vector3 {
                x: add_bits(self.x, rhs.x),
                y: add_bits(self.y, rhs.y),
                z: add_bits(self.z, rhs.z),
            }),
    {
        Self {
            x: crate::scalar::add32(self.x, rhs.x),
            y: crate::scalar::add32(self.y, rhs.y),
            z: crate::scalar::add32(self.z, rhs.z),
        }
    }

    /// The scalar added to every component; scalar-plus-vector and
    /// vector-plus-scalar agree.
    pub fn add_scalar(self, rhs: u32) -> (r: Vector3)
        ensures
            r == (Vector3 {
                x: add_bits(self.x, rhs),
                y: add_bits(self.y, rhs),
                z: add_bits(self.z, rhs),
            }),
    {
        Self {
            x: crate::scalar::add32(self.x, rhs),
            y: crate::scalar::add32(self.y, rhs),
            z: crate::scalar::add32(self.z, rhs),
        }
    }

    /// Component-wise vector difference.
    pub fn sub(self, rhs: Vector3) -> (r: Vector3)
        ensures
            r == (Vector3 {
                x: sub_bits(self.x, rhs.x),
                y: sub_bits(self.y, rhs.y),
                z: sub_bits(self.z, rhs.z),
            }),
    {
        Self {
            x: crate::scalar::sub32(self.x, rhs.x),
            y: crate::scalar::sub32(self.y, rhs.y),
            z: crate::scalar::sub32(self.z, rhs.z),
        }
    }

    /// The scalar subtracted from every component. The commuted form,
    /// scalar minus vector, is deliberately not offered.
    pub fn sub_scalar(self, rhs: u32) -> (r: Vector3)
        ensures
            r == (Vector3 {
                x: sub_bits(self.x, rhs),
                y: sub_bits(self.y, rhs),
                z: sub_bits(self.z, rhs),
            }),
    {
        Self {
            x: crate::scalar::sub32(self.x, rhs),
            y: crate::scalar::sub32(self.y, rhs),
            z: crate::scalar::sub32(self.z, rhs),
        }
    }

    /// Every component multiplied by the scalar; scalar-times-vector and
    /// vector-times-scalar agree.
    pub fn mul_scalar(self, rhs: u32) -> (r: Vector3)
        ensures
            r == (Vector3 {
                x: mul_bits(self.x, rhs),
                y: mul_bits(self.y, rhs),
                z: mul_bits(self.z, rhs),
            }),
    {
        Self {
            x: crate::scalar::mul32(self.x, rhs),
            y: crate::scalar::mul32(self.y, rhs),
            z: crate::scalar::mul32(self.z, rhs),
        }
    }

    /// Every component divided by the scalar; division by zero yields
    /// infinities or NaN per IEEE 754.
    pub fn div_scalar(self, rhs: u32) -> (r: Vector3)
        ensures
            r == (Vector3 {
                x: div_bits(self.x, rhs),
                y: div_bits(self.y, rhs),
                z: div_bits(self.z, rhs),
            }),
    {
        Self {
            x: crate::scalar::div32(self.x, rhs),
            y: crate::scalar::div32(self.y, rhs),
            z: crate::scalar::div32(self.z, rhs),
        }
    }

    /// Every component negated: the sign bit flipped.
    pub fn neg(self) -> (r: Vector3)
        ensures
            r == (Vector3 { x: neg_bits(self.x), y: neg_bits(self.y), z: neg_bits(self.z) }),
    {
        Self {
            x: crate::scalar::neg32(self.x),
            y: crate::scalar::neg32(self.y),
            z: crate::scalar::neg32(self.z),
        }
    }
}

/// Negating a vector twice gives back exactly the vector started from, bit
/// for bit in every component: the one piece of the arithmetic involution
/// laws that holds at the bit level for every input, NaN included.
pub proof fn lemma_neg_involution3(v: Vector3)
    ensures
        (Vector3 {
            x: neg_bits(neg_bits(v.x)),
            y: neg_bits(neg_bits(v.y)),
            z: neg_bits(neg_bits(v.z)),
        }) == v,
{
    crate::scalar::lemma_neg_neg(v.x);
    crate::scalar::lemma_neg_neg(v.y);
    crate::scalar::lemma_neg_neg(v.z);
}

impl PartialEq for Vector3 {
    /// IEEE 754 equality on every component: exact, except that the two
    /// zeros are equal and NaN equals nothing.
    fn eq(&self, other: &Vector3) -> (r: bool) {
        crate::scalar::eq32(self.x, other.x) && crate::scalar::eq32(self.y, other.y)
            && crate::scalar::eq32(self.z, other.z)
    }
}

impl vstd::std_specs::cmp::PartialEqSpecImpl for Vector3 {
    open spec fn obeys_eq_spec() -> bool {
        true
    }

    open spec fn eq_spec(&self, other: &Vector3) -> bool {
        eq3(*self, *other)
    }
}

impl From<(u32, u32, u32)> for Vector3 {
    /// The tuple's fields, in order, as the components.
    fn from(other: (u32, u32, u32)) -> (r: Self) {
        Self { x: other.0, y: other.1, z: other.2 }
    }
}

impl vstd::std_specs::convert::FromSpecImpl<(u32, u32, u32)> for Vector3 {
    open spec fn obeys_from_spec() -> bool {
        true
    }

    open spec fn from_spec(other: (u32, u32, u32)) -> Self {
        Vector3 { x: other.0, y: other.1, z: other.2 }
    }
}

impl From<(Vector2, u32)> for Vector3 {
    /// Widens a two-component vector: its components kept in order, the
    /// scalar appended as z.
    fn from(other: (Vector2, u32)) -> (r: Self) {
        Self { x: other.0.x, y: other.0.y, z: other.1 }
    }
}

impl vstd::std_specs::convert::FromSpecImpl<(Vector2, u32)> for Vector3 {
    open spec fn obeys_from_spec() -> bool {
        true
    }

    open spec fn from_spec(other: (Vector2, u32)) -> Self {
        Vector3 { x: other.0.x, y: other.0.y, z: other.1 }
    }
}

/// Widening keeps every component: the widened vector's view is the narrow
/// vector's view with the new last component appended.
pub proof fn lemma_widen_vector3(v: Vector2, z: u32)
    ensures
        (Vector3 { x: v.x, y: v.y, z })@ == v@.push(z),
{
    assert((Vector3 { x: v.x, y: v.y, z })@ =~= v@.push(z));
}

} // verus!
