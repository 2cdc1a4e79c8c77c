//! Four-component binary32 vector.
//!
//! There is deliberately no four-component cross product: it is not
//! well-defined as a binary operation in this design.

use vstd::prelude::*;

use crate::scalar::add_bits;
use crate::scalar::div_bits;
use crate::scalar::eq_bits;
use crate::scalar::mul_bits;
use crate::scalar::neg_bits;
use crate::scalar::sqrt_bits;
use crate::scalar::sub_bits;
use crate::vector3::Vector3;

verus! {

/// An ordered quadruple of binary32 components, each carried as its bit
/// pattern.
#[derive(Clone, Copy, Debug)]
pub struct Vector4 {
    pub x: u32,
    pub y: u32,
    pub z: u32,
    pub w: u32,
}

impl View for Vector4 {
    type V = Seq<u32>;

    open spec fn view(&self) -> Seq<u32> {
        seq![self.x, self.y, self.z, self.w]
    }
}

/// The squared Euclidean norm: x**2 + y**2 + z**2 + w**2, summed left to
/// right.
pub open spec fn norm_sq4(v: Vector4) -> u32 {
    add_bits(
        add_bits(add_bits(mul_bits(v.x, v.x), mul_bits(v.y, v.y)), mul_bits(v.z, v.z)),
        mul_bits(v.w, v.w),
    )
}

/// The Euclidean norm: the square root of the summed squares.
pub open spec fn len4(v: Vector4) -> u32 {
    sqrt_bits(norm_sq4(v))
}

/// The dot product: component products summed left to right.
pub open spec fn dot4(a: Vector4, b: Vector4) -> u32 {
    add_bits(
        add_bits(add_bits(mul_bits(a.x, b.x), mul_bits(a.y, b.y)), mul_bits(a.z, b.z)),
        mul_bits(a.w, b.w),
    )
}

/// Every component divided by the norm.
pub open spec fn normalized4(v: Vector4) -> Vector4 {
    Vector4 {
        x: div_bits(v.x, len4(v)),
        y: div_bits(v.y, len4(v)),
        z: div_bits(v.z, len4(v)),
        w: div_bits(v.w, len4(v)),
    }
}

/// IEEE 754 equality, component by component.
pub open spec fn eq4(a: Vector4, b: Vector4) -> bool {
    eq_bits(a.x, b.x) && eq_bits(a.y, b.y) && eq_bits(a.z, b.z) && eq_bits(a.w, b.w)
}

impl Vector4 {
    /// Builds the vector with the given component bits.
    pub fn new(x: u32, y: u32, z: u32, w: u32) -> (r: Self)
        ensures
            r == (Vector4 { x, y, z, w }),
    {
        Self { x, y, z, w }
    }

    /// The Euclidean norm; the norm of a zero vector is zero, and the
    /// operation never fails.
    pub fn length(&self) -> (r: u32)
        ensures
            r == len4(*self),
    {
        let sum_squares = crate::scalar::add32(
            crate::scalar::add32(
                crate::scalar::add32(
                    crate::scalar::mul32(self.x, self.x),
                    crate::scalar::mul32(self.y, self.y),
                ),
                crate::scalar::mul32(self.z, self.z),
            ),
            crate::scalar::mul32(self.w, self.w),
        );
        crate::scalar::sqrt32(sum_squares)
    }

    /// The first component.
    pub fn x(&self) -> (r: u32)
        ensures
            r == self.x,
    {
        self.x
    }

    /// The second component.
    pub fn y(&self) -> (r: u32)
        ensures
            r == self.y,
    {
        self.y
    }

    /// The third component.
    pub fn z(&self) -> (r: u32)
        ensures
            r == self.z,
    {
        self.z
    }

    /// The fourth component.
    pub fn w(&self) -> (r: u32)
        ensures
            r == self.w,
    {
        self.w
    }

    /// The dot product, summed left to right; commuting the operands commutes
    /// every product and sum operand for operand.
    pub fn dot(&self, other: &Vector4) -> (r: u32)
        ensures
            r == dot4(*self, *other),
    {
        crate::scalar::add32(
            crate::scalar::add32(
                crate::scalar::add32(
                    crate::scalar::mul32(self.x, other.x),
                    crate::scalar::mul32(self.y, other.y),
                ),
                crate::scalar::mul32(self.z, other.z),
            ),
            crate::scalar::mul32(self.w, other.w),
        )
    }

    /// Every component divided by the norm. A zero-length vector divides by
    /// zero and yields NaN components per IEEE 754; nothing is clamped.
    pub fn normalized(&self) -> (r: Vector4)
        ensures
            r == normalized4(*self),
    {
        let len = self.length();
        self.div_scalar(len)
    }

    /// Component-wise vector sum.
    pub fn add(self, rhs: Vector4) -> (r: Vector4)
        ensures
            r == (Vector4 {
                x: add_bits(self.x, rhs.x),
                y: add_bits(self.y, rhs.y),
                z: add_bits(self.z, rhs.z),
                w: add_bits(self.w, rhs.w),
            }),
    {
        Self {
            x: crate::scalar::add32(self.x, rhs.x),
            y: crate::scalar::add32(self.y, rhs.y),
            z: crate::scalar::add32(self.z, rhs.z),
            w: crate::scalar::add32(self.w, rhs.w),
        }
    }

    /// The scalar added to every component; scalar-plus-vector and
    /// vector-plus-scalar agree.
    pub fn add_scalar(self, rhs: u32) -> (r: Vector4)
        ensures
            r == (Vector4 {
                x: add_bits(self.x, rhs),
                y: add_bits(self.y, rhs),
                z: add_bits(self.z, rhs),
                w: add_bits(self.w, rhs),
            }),
    {
        Self {
            x: crate::scalar::add32(self.x, rhs),
            y: crate::scalar::add32(self.y, rhs),
            z: crate::scalar::add32(self.z, rhs),
            w: crate::scalar::add32(self.w, rhs),
        }
    }

    /// Component-wise vector difference.
    pub fn sub(self, rhs: Vector4) -> (r: Vector4)
        ensures
            r == (Vector4 {
                x: sub_bits(self.x, rhs.x),
                y: sub_bits(self.y, rhs.y),
                z: sub_bits(self.z, rhs.z),
                w: sub_bits(self.w, rhs.w),
            }),
    {
        Self {
            x: crate::scalar::sub32(self.x, rhs.x),
            y: crate::scalar::sub32(self.y, rhs.y),
            z: crate::scalar::sub32(self.z, rhs.z),
            w: crate::scalar::sub32(self.w, rhs.w),
        }
    }

    /// The scalar subtracted from every component. The commuted form,
    /// scalar minus vector, is deliberately not offered.
    pub fn sub_scalar(self, rhs: u32) -> (r: Vector4)
        ensures
            r == (Vector4 {
                x: sub_bits(self.x, rhs),
                y: sub_bits(self.y, rhs),
                z: sub_bits(self.z, rhs),
                w: sub_bits(self.w, rhs),
            }),
    {
        Self {
            x: crate::scalar::sub32(self.x, rhs),
            y: crate::scalar::sub32(self.y, rhs),
            z: crate::scalar::sub32(self.z, rhs),
            w: crate::scalar::sub32(self.w, rhs),
        }
    }

    /// Component-wise product with the other vector. Only the
    /// four-component vector offers this form.
    pub fn mul_components(self, rhs: Vector4) -> (r: Vector4)
        ensures
            r == (Vector4 {
                x: mul_bits(self.x, rhs.x),
                y: mul_bits(self.y, rhs.y),
                z: mul_bits(self.z, rhs.z),
                w: mul_bits(self.w, rhs.w),
            }),
    {
        Self {
            x: crate::scalar::mul32(self.x, rhs.x),
            y: crate::scalar::mul32(self.y, rhs.y),
            z: crate::scalar::mul32(self.z, rhs.z),
            w: crate::scalar::mul32(self.w, rhs.w),
        }
    }

    /// Every component multiplied by the scalar; scalar-times-vector and
    /// vector-times-scalar agree.
    pub fn mul_scalar(self, rhs: u32) -> (r: Vector4)
        ensures
            r == (Vector4 {
                x: mul_bits(self.x, rhs),
                y: mul_bits(self.y, rhs),
                z: mul_bits(self.z, rhs),
                w: mul_bits(self.w, rhs),
            }),
    {
        Self {
            x: crate::scalar::mul32(self.x, rhs),
            y: crate::scalar::mul32(self.y, rhs),
            z: crate::scalar::mul32(self.z, rhs),
            w: crate::scalar::mul32(self.w, rhs),
        }
    }

    /// Every component divided by the scalar; division by zero yields
    /// infinities or NaN per IEEE 754.
    pub fn div_scalar(self, rhs: u32) -> (r: Vector4)
        ensures
            r == (Vector4 {
                x: div_bits(self.x, rhs),
                y: div_bits(self.y, rhs),
                z: div_bits(self.z, rhs),
                w: div_bits(self.w, rhs),
            }),
    {
        Self {
            x: crate::scalar::div32(self.x, rhs),
            y: crate::scalar::div32(self.y, rhs),
            z: crate::scalar::div32(self.z, rhs),
            w: crate::scalar::div32(self.w, rhs),
        }
    }

    /// Every component negated: the sign bit flipped.
    pub fn neg(self) -> (r: Vector4)
        ensures
            r == (Vector4 {
                x: neg_bits(self.x),
                y: neg_bits(self.y),
                z: neg_bits(self.z),
                w: neg_bits(self.w),
            }),
    {
        Self {
            x: crate::scalar::neg32(self.x),
            y: crate::scalar::neg32(self.y),
            z: crate::scalar::neg32(self.z),
            w: crate::scalar::neg32(self.w),
        }
    }
}

/// Negating a vector twice gives back exactly the vector started from, bit
/// for bit in every component: the one piece of the arithmetic involution
/// laws that holds at the bit level for every input, NaN included.
pub proof fn lemma_neg_involution4(v: Vector4)
    ensures
        (Vector4 {
            x: neg_bits(neg_bits(v.x)),
            y: neg_bits(neg_bits(v.y)),
            z: neg_bits(neg_bits(v.z)),
            w: neg_bits(neg_bits(v.w)),
        }) == v,
{
    crate::scalar::lemma_neg_neg(v.x);
    crate::scalar::lemma_neg_neg(v.y);
    crate::scalar::lemma_neg_neg(v.z);
    crate::scalar::lemma_neg_neg(v.w);
}

impl PartialEq for Vector4 {
    /// IEEE 754 equality on every component: exact, except that the two
    /// zeros are equal and NaN equals nothing.
    fn eq(&self, other: &Vector4) -> (r: bool) {
        crate::scalar::eq32(self.x, other.x) && crate::scalar::eq32(self.y, other.y)
            && crate::scalar::eq32(self.z, other.z) && crate::scalar::eq32(self.w, other.w)
    }
}

impl vstd::std_specs::cmp::PartialEqSpecImpl for Vector4 {
    open spec fn obeys_eq_spec() -> bool {
        true
    }

    open spec fn eq_spec(&self, other: &Vector4) -> bool {
        eq4(*self, *other)
    }
}

impl From<(u32, u32, u32, u32)> for Vector4 {
    /// The tuple's fields, in order, as the components.
    fn from(other: (u32, u32, u32, u32)) -> (r: Self) {
        Self { x: other.0, y: other.1, z: other.2, w: other.3 }
    }
}

impl vstd::std_specs::convert::FromSpecImpl<(u32, u32, u32, u32)> for Vector4 {
    open spec fn obeys_from_spec() -> bool {
        true
    }

    open spec fn from_spec(other: (u32, u32, u32, u32)) -> Self {
        Vector4 { x: other.0, y: other.1, z: other.2, w: other.3 }
    }
}

impl From<(Vector3, u32)> for Vector4 {
    /// Widens a three-component vector: its components kept in order, the
    /// scalar appended as w.
    fn from(other: (Vector3, u32)) -> (r: Self) {
        Self { x: other.0.x, y: other.0.y, z: other.0.z, w: other.1 }
    }
}

impl vstd::std_specs::convert::FromSpecImpl<(Vector3, u32)> for Vector4 {
    open spec fn obeys_from_spec() -> bool {
        true
    }

    open spec fn from_spec(other: (Vector3, u32)) -> Self {
        Vector4 { x: other.0.x, y: other.0.y, z: other.0.z, w: other.1 }
    }
}

/// Widening keeps every component: the widened vector's view is the narrow
/// vector's view with the new last component appended.
pub proof fn lemma_widen_vector4(v: Vector3, w: u32)
    ensures
        (Vector4 { x: v.x, y: v.y, z: v.z, w })@ == v@.push(w),
{
    assert((Vector4 { x: v.x, y: v.y, z: v.z, w })@ =~= v@.push(w));
}

} // verus!
