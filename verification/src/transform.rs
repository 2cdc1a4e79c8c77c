//! Transform helpers: free functions that compose a matrix with a new
//! transform by right-multiplication, so the rightmost-applied call is the
//! first-applied transform under this library's row-vector convention.

use vstd::prelude::*;

use crate::matrix4::m4_mul;
use crate::matrix4::Matrix4;
use crate::scalar::add_bits;
use crate::scalar::mul_bits;
use crate::scalar::neg_bits;
use crate::scalar::sub_bits;
use crate::scalar::F_ONE;
use crate::scalar::F_ZERO;
use crate::vector3::cross3;
use crate::vector3::dot3;
use crate::vector3::normalized3;
use crate::vector3::parallel3;
use crate::vector3::Vector3;
use crate::vector4::Vector4;

verus! {

/// The translation matrix: the identity with the vector's components in the
/// last column of the first three rows.
pub open spec fn translation_matrix(v: Vector3) -> Matrix4 {
    Matrix4 {
        r1: Vector4 { x: F_ONE, y: F_ZERO, z: F_ZERO, w: v.x },
        r2: Vector4 { x: F_ZERO, y: F_ONE, z: F_ZERO, w: v.y },
        r3: Vector4 { x: F_ZERO, y: F_ZERO, z: F_ONE, w: v.z },
        r4: Vector4 { x: F_ZERO, y: F_ZERO, z: F_ZERO, w: F_ONE },
    }
}

/// The scaling matrix: the vector's components on the diagonal and one in the
/// last diagonal slot.
pub open spec fn scaling_matrix(v: Vector3) -> Matrix4 {
    Matrix4 {
        r1: Vector4 { x: v.x, y: F_ZERO, z: F_ZERO, w: F_ZERO },
        r2: Vector4 { x: F_ZERO, y: v.y, z: F_ZERO, w: F_ZERO },
        r3: Vector4 { x: F_ZERO, y: F_ZERO, z: v.z, w: F_ZERO },
        r4: Vector4 { x: F_ZERO, y: F_ZERO, z: F_ZERO, w: F_ONE },
    }
}

/// The Rodrigues axis-angle rotation matrix over the cosine and sine of the
/// angle and a normalized axis: cos t on the diagonal plus (1 - cos t) times
/// the axis outer product, with sin t times the axis entering through the
/// skew-symmetric cross-product terms. Each entry is composed exactly as
/// written: products left to right, then the one addition or subtraction.
pub open spec fn rotation_matrix(cosine: u32, sine: u32, axis: Vector3) -> Matrix4 {
    let omc = sub_bits(F_ONE, cosine);
    Matrix4 {
        r1: Vector4 {
            x: add_bits(cosine, mul_bits(mul_bits(axis.x, axis.x), omc)),
            y: sub_bits(mul_bits(mul_bits(axis.x, axis.y), omc), mul_bits(axis.z, sine)),
            z: add_bits(mul_bits(mul_bits(axis.x, axis.z), omc), mul_bits(axis.y, sine)),
            w: F_ZERO,
        },
        r2: Vector4 {
            x: add_bits(mul_bits(mul_bits(axis.y, axis.x), omc), mul_bits(axis.z, sine)),
            y: add_bits(cosine, mul_bits(mul_bits(axis.y, axis.y), omc)),
            z: sub_bits(mul_bits(mul_bits(axis.y, axis.z), omc), mul_bits(axis.x, sine)),
            w: F_ZERO,
        },
        r3: Vector4 {
            x: sub_bits(mul_bits(mul_bits(axis.z, axis.x), omc), mul_bits(axis.y, sine)),
            y: add_bits(mul_bits(mul_bits(axis.z, axis.y), omc), mul_bits(axis.x, sine)),
            z: add_bits(cosine, mul_bits(mul_bits(axis.z, axis.z), omc)),
            w: F_ZERO,
        },
        r4: Vector4 { x: F_ZERO, y: F_ZERO, z: F_ZERO, w: F_ONE },
    }
}

/// The view direction of `look_at`: the normalized difference of eye and
/// target.
pub open spec fn view_forward(eye: Vector3, target: Vector3) -> Vector3 {
    normalized3(
        Vector3 {
            x: sub_bits(eye.x, target.x),
            y: sub_bits(eye.y, target.y),
            z: sub_bits(eye.z, target.z),
        },
    )
}

/// The right-hand basis vector of `look_at`: the normalized cross product of
/// the up hint with the forward direction.
pub open spec fn view_right(eye: Vector3, target: Vector3, up: Vector3) -> Vector3 {
    normalized3(cross3(up, view_forward(eye, target)))
}

/// The corrected up vector of `look_at`: forward crossed with right.
pub open spec fn view_true_up(eye: Vector3, target: Vector3, up: Vector3) -> Vector3 {
    cross3(view_forward(eye, target), view_right(eye, target, up))
}

/// The right-handed view matrix of `look_at`: the rows are right, true up
/// and forward, each with a translation component equal to its negative dot
/// product with the eye, and the bottom row is (0, 0, 0, 1).
pub open spec fn look_at_matrix(eye: Vector3, target: Vector3, up: Vector3) -> Matrix4 {
    let fwd = view_forward(eye, target);
    let right = view_right(eye, target, up);
    let true_up = view_true_up(eye, target, up);
    Matrix4 {
        r1: Vector4 {
            x: right.x,
            y: right.y,
            z: right.z,
            w: neg_bits(dot3(right, eye)),
        },
        r2: Vector4 {
            x: true_up.x,
            y: true_up.y,
            z: true_up.z,
            w: neg_bits(dot3(true_up, eye)),
        },
        r3: Vector4 { x: fwd.x, y: fwd.y, z: fwd.z, w: neg_bits(dot3(fwd, eye)) },
        r4: Vector4 { x: F_ZERO, y: F_ZERO, z: F_ZERO, w: F_ONE },
    }
}

/// Whether `look_at` is defined on the arguments: neither of its two cross
/// products gets parallel operands.
pub open spec fn look_at_defined(eye: Vector3, target: Vector3, up: Vector3) -> bool {
    &&& !parallel3(up, view_forward(eye, target))
    &&& !parallel3(view_forward(eye, target), view_right(eye, target, up))
}

/// Right-multiplies the matrix by the translation matrix carrying the
/// vector's components in the last column of the first three rows.
pub fn translate(m: &Matrix4, v: &Vector3) -> (r: Matrix4)
    ensures
        r == m4_mul(*m, translation_matrix(*v)),
{
    let m2 = Matrix4::new(
        Vector4 { x: F_ONE, y: F_ZERO, z: F_ZERO, w: v.x },
        Vector4 { x: F_ZERO, y: F_ONE, z: F_ZERO, w: v.y },
        Vector4 { x: F_ZERO, y: F_ZERO, z: F_ONE, w: v.z },
        Vector4 { x: F_ZERO, y: F_ZERO, z: F_ZERO, w: F_ONE },
    );
    m.mul(m2)
}

/// Right-multiplies the matrix by the Rodrigues rotation matrix for the given
/// cosine and sine of the rotation angle about the given axis. The axis is
/// normalized here, so callers need not pre-normalize it; the angle arrives
/// as its cosine and sine because trigonometry itself is outside this core.
pub fn rotate(m: &Matrix4, cosine: u32, sine: u32, v: &Vector3) -> (r: Matrix4)
    ensures
        r == m4_mul(*m, rotation_matrix(cosine, sine, normalized3(*v))),
{
    let axis = v.normalized();
    let omc = crate::scalar::sub32(F_ONE, cosine);

    let rot1_1 = crate::scalar::add32(
        cosine,
        crate::scalar::mul32(crate::scalar::mul32(axis.x, axis.x), omc),
    );
    let rot1_2 = crate::scalar::sub32(
        crate::scalar::mul32(crate::scalar::mul32(axis.x, axis.y), omc),
        crate::scalar::mul32(axis.z, sine),
    );
    let rot1_3 = crate::scalar::add32(
        crate::scalar::mul32(crate::scalar::mul32(axis.x, axis.z), omc),
        crate::scalar::mul32(axis.y, sine),
    );
    let rot2_1 = crate::scalar::add32(
        crate::scalar::mul32(crate::scalar::mul32(axis.y, axis.x), omc),
        crate::scalar::mul32(axis.z, sine),
    );
    let rot2_2 = crate::scalar::add32(
        cosine,
        crate::scalar::mul32(crate::scalar::mul32(axis.y, axis.y), omc),
    );
    let rot2_3 = crate::scalar::sub32(
        crate::scalar::mul32(crate::scalar::mul32(axis.y, axis.z), omc),
        crate::scalar::mul32(axis.x, sine),
    );
    let rot3_1 = crate::scalar::sub32(
        crate::scalar::mul32(crate::scalar::mul32(axis.z, axis.x), omc),
        crate::scalar::mul32(axis.y, sine),
    );
    let rot3_2 = crate::scalar::add32(
        crate::scalar::mul32(crate::scalar::mul32(axis.z, axis.y), omc),
        crate::scalar::mul32(axis.x, sine),
    );
    let rot3_3 = crate::scalar::add32(
        cosine,
        crate::scalar::mul32(crate::scalar::mul32(axis.z, axis.z), omc),
    );

    let rot = Matrix4::new(
        Vector4 { x: rot1_1, y: rot1_2, z: rot1_3, w: F_ZERO },
        Vector4 { x: rot2_1, y: rot2_2, z: rot2_3, w: F_ZERO },
        Vector4 { x: rot3_1, y: rot3_2, z: rot3_3, w: F_ZERO },
        Vector4 { x: F_ZERO, y: F_ZERO, z: F_ZERO, w: F_ONE },
    );
    m.mul(rot)
}

/// Right-multiplies the matrix by the diagonal scaling matrix carrying the
/// vector's components and a final one on the diagonal.
pub fn scale(m: &Matrix4, v: &Vector3) -> (r: Matrix4)
    ensures
        r == m4_mul(*m, scaling_matrix(*v)),
{
    let scaling = Matrix4::new(
        Vector4 { x: v.x, y: F_ZERO, z: F_ZERO, w: F_ZERO },
        Vector4 { x: F_ZERO, y: v.y, z: F_ZERO, w: F_ZERO },
        Vector4 { x: F_ZERO, y: F_ZERO, z: v.z, w: F_ZERO },
        Vector4 { x: F_ZERO, y: F_ZERO, z: F_ZERO, w: F_ONE },
    );
    m.mul(scaling)
}

/// The right-handed view matrix looking from the eye toward the target with
/// the given up hint. Built through two cross products, so the degenerate
/// operand pairs are ruled out here; `checked_look_at` tests them at run
/// time instead.
pub fn look_at(eye: &Vector3, target: &Vector3, up: &Vector3) -> (r: Matrix4)
    requires
        look_at_defined(*eye, *target, *up),
    ensures
        r == look_at_matrix(*eye, *target, *up),
{
    let forward = eye.sub(*target).normalized();
    let right = up.cross(&forward).normalized();
    let true_up = forward.cross(&right);
    Matrix4::new(
        Vector4 {
            x: right.x,
            y: right.y,
            z: right.z,
            w: crate::scalar::neg32(right.dot(eye)),
        },
        Vector4 {
            x: true_up.x,
            y: true_up.y,
            z: true_up.z,
            w: crate::scalar::neg32(true_up.dot(eye)),
        },
        Vector4 {
            x: forward.x,
            y: forward.y,
            z: forward.z,
            w: crate::scalar::neg32(forward.dot(eye)),
        },
        Vector4 { x: F_ZERO, y: F_ZERO, z: F_ZERO, w: F_ONE },
    )
}

/// `look_at` behind a run-time test of its two cross-product preconditions:
/// `None` exactly where `look_at` is undefined, `Some` of its matrix
/// everywhere else.
pub fn checked_look_at(eye: &Vector3, target: &Vector3, up: &Vector3) -> (r: Option<Matrix4>)
    ensures
        r == if look_at_defined(*eye, *target, *up) {
            Option::Some(look_at_matrix(*eye, *target, *up))
        } else {
            Option::<Matrix4>::None
        },
{
    let forward = eye.sub(*target).normalized();
    if up.normalized() == forward.normalized() {
        return None;
    }
    let right = up.cross(&forward).normalized();
    if forward.normalized() == right.normalized() {
        return None;
    }
    Some(look_at(eye, target, up))
}

} // verus!
