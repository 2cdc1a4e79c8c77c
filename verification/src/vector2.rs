//! Two-component binary32 vector.

use vstd::prelude::*;

use crate::scalar::add_bits;
use crate::scalar::div_bits;
use crate::scalar::eq_bits;
use crate::scalar::mul_bits;
use crate::scalar::neg_bits;
use crate::scalar::sqrt_bits;
use crate::scalar::sub_bits;

verus! {

/// An ordered pair of binary32 components, each carried as its bit pattern.
#[derive(Clone, Copy, Debug)]
pub struct Vector2 {
    pub x: u32,
    pub y: u32,
}

impl View for Vector2 {
    type V = Seq<u32>;

    open spec fn view(&self) -> Seq<u32> {
        seq![self.x, self.y]
    }
}

/// The squared Euclidean norm: x**2 + y**2, summed left to right.
pub open spec fn norm_sq2(v: Vector2) -> u32 {
    add_bits(mul_bits(v.x, v.x), mul_bits(v.y, v.y))
}

/// The Euclidean norm: the square root of the summed squares.
pub open spec fn len2(v: Vector2) -> u32 {
    sqrt_bits(norm_sq2(v))
}

/// The dot product: component products summed left to right.
pub open spec fn dot2(a: Vector2, b: Vector2) -> u32 {
    add_bits(mul_bits(a.x, b.x), mul_bits(a.y, b.y))
}

/// Every component divided by the norm.
pub open spec fn normalized2(v: Vector2) -> Vector2 {
    Vector2 { x: div_bits(v.x, len2(v)), y: div_bits(v.y, len2(v)) }
}

/// IEEE 754 equality, component by component.
pub open spec fn eq2(a: Vector2, b: Vector2) -> bool {
    eq_bits(a.x, b.x) && eq_bits(a.y, b.y)
}

impl Vector2 {
    /// Builds the vector with the given component bits.
    pub fn new(x: u32, y: u32) -> (r: Self)
        ensures
            r == (Vector2 { x, y }),
    {
        Self { x, y }
    }

    /// The Euclidean norm; the norm of a zero vector is zero, and the
    /// operation never fails.
    pub fn length(&self) -> (r: u32)
        ensures
            r == len2(*self),
    {
        let sum_squares = crate::scalar::add32(
            crate::scalar::mul32(self.x, self.x),
            crate::scalar::mul32(self.y, self.y),
        );
        crate::scalar::sqrt32(sum_squares)
    }

    /// The first component.
    pub fn x(&self) -> (r: u32)
        ensures
            r == self.x,
    {
        self.x
    }

    /// The second component.
    pub fn y(&self) -> (r: u32)
        ensures
            r == self.y,
    {
        self.y
    }

    /// The dot product, summed left to right; commuting the operands commutes
    /// every product and sum operand for operand.
    pub fn dot(&self, other: &Vector2) -> (r: u32)
        ensures
            r == dot2(*self, *other),
    {
        crate::scalar::add32(
            crate::scalar::mul32(self.x, other.x),
            crate::scalar::mul32(self.y, other.y),
        )
    }

    /// Every component divided by the norm. A zero-length vector divides by
    /// zero and yields NaN components per IEEE 754; nothing is clamped.
    pub fn normalized(&self) -> (r: Vector2)
        ensures
            r == normalized2(*self),
    {
        let len = self.length();
        Self { x: crate::scalar::div32(self.x, len), y: crate::scalar::div32(self.y, len) }
    }

    /// Component-wise vector sum.
    pub fn add(self, rhs: Vector2) -> (r: Vector2)
        ensures
            r == (Vector2 { x: add_bits(self.x, rhs.x), y: add_bits(self.y, rhs.y) }),
    {
        Self {
            x: crate::scalar::add32(self.x, rhs.x),
            y: crate::scalar::add32(self.y, rhs.y),
        }
    }

    /// The scalar added to every component; scalar-plus-vector and
    /// vector-plus-scalar agree.
    pub fn add_scalar(self, rhs: u32) -> (r: Vector2)
        ensures
            r == (Vector2 { x: add_bits(self.x, rhs), y: add_bits(self.y, rhs) }),
    {
        Self {
            x: crate::scalar::add32(self.x, rhs),
            y: crate::scalar::add32(self.y, rhs),
        }
    }

    /// Component-wise vector difference.
    pub fn sub(self, rhs: Vector2) -> (r: Vector2)
        ensures
            r == (Vector2 { x: sub_bits(self.x, rhs.x), y: sub_bits(self.y, rhs.y) }),
    {
        Self {
            x: crate::scalar::sub32(self.x, rhs.x),
            y: crate::scalar::sub32(self.y, rhs.y),
        }
    }

    /// The scalar subtracted from every component. The commuted form,
    /// scalar minus vector, is deliberately not offered.
    pub fn sub_scalar(self, rhs: u32) -> (r: Vector2)
        ensures
            r == (Vector2 { x: sub_bits(self.x, rhs), y: sub_bits(self.y, rhs) }),
    {
        Self {
            x: crate::scalar::sub32(self.x, rhs),
            y: crate::scalar::sub32(self.y, rhs),
        }
    }

    /// Every component multiplied by the scalar; scalar-times-vector and
    /// vector-times-scalar agree.
    pub fn mul_scalar(self, rhs: u32) -> (r: Vector2)
        ensures
            r == (Vector2 { x: mul_bits(self.x, rhs), y: mul_bits(self.y, rhs) }),
    {
        Self {
            x: crate::scalar::mul32(self.x, rhs),
            y: crate::scalar::mul32(self.y, rhs),
        }
    }

    /// Every component divided by the scalar; division by zero yields
    /// infinities or NaN per IEEE 754.
    pub fn div_scalar(self, rhs: u32) -> (r: Vector2)
        ensures
            r == (Vector2 { x: div_bits(self.x, rhs), y: div_bits(self.y, rhs) }),
    {
        Self {
            x: crate::scalar::div32(self.x, rhs),
            y: crate::scalar::div32(self.y, rhs),
        }
    }

    /// Every component negated: the sign bit flipped.
    pub fn neg(self) -> (r: Vector2)
        ensures
            r == (Vector2 { x: neg_bits(self.x), y: neg_bits(self.y) }),
    {
        Self {
            x: crate::scalar::neg32(self.x),
            y: crate::scalar::neg32(self.y),
        }
    }
}

/// Negating a vector twice gives back exactly the vector started from, bit
/// for bit in every component: the one piece of the arithmetic involution
/// laws that holds at the bit level for every input, NaN included.
pub proof fn lemma_neg_involution2(v: Vector2)
    ensures
        (Vector2 { x: neg_bits(neg_bits(v.x)), y: neg_bits(neg_bits(v.y)) }) == v,
{
    crate::scalar::lemma_neg_neg(v.x);
    crate::scalar::lemma_neg_neg(v.y);
}

impl PartialEq for Vector2 {
    /// IEEE 754 equality on every component: exact, except that the two
    /// zeros are equal and NaN equals nothing.
    fn eq(&self, other: &Vector2) -> (r: bool) {
        crate::scalar::eq32(self.x, other.x) && crate::scalar::eq32(self.y, other.y)
    }
}

impl vstd::std_specs::cmp::PartialEqSpecImpl for Vector2 {
    open spec fn obeys_eq_spec() -> bool {
        true
    }

    open spec fn eq_spec(&self, other: &Vector2) -> bool {
        eq2(*self, *other)
    }
}

impl From<(u32, u32)> for Vector2 {
    /// The tuple's fields, in order, as the components.
    fn from(other: (u32, u32)) -> (r: Self) {
        Self { x: other.0, y: other.1 }
    }
}

impl vstd::std_specs::convert::FromSpecImpl<(u32, u32)> for Vector2 {
    open spec fn obeys_from_spec() -> bool {
        true
    }

    open spec fn from_spec(other: (u32, u32)) -> Self {
        Vector2 { x: other.0, y: other.1 }
    }
}

} // verus!
