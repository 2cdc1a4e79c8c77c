use scop::vector2::Vector2;
use scop::vector3::Vector3;
use scop::vector4::Vector4;

fn b(x: f32) -> u32 {
    x.to_bits()
}

fn v2(x: f32, y: f32) -> Vector2 {
    Vector2::new(b(x), b(y))
}

fn v3(x: f32, y: f32, z: f32) -> Vector3 {
    Vector3::new(b(x), b(y), b(z))
}

fn v4(x: f32, y: f32, z: f32, w: f32) -> Vector4 {
    Vector4::new(b(x), b(y), b(z), b(w))
}

#[test]
fn vec2_length() {
    let v = v2(3.0, 4.0);
    assert_eq!(v.length(), b(5.0));
}

#[test]
fn vec3_length() {
    let v = v3(4.0, 13.0, 16.0);
    assert_eq!(v.length(), b(21.0));
}

#[test]
fn vec4_length() {
    let v = v4(1.0, 1.0, 1.0, 1.0);
    assert_eq!(v.length(), b(2.0));
}

#[test]
fn vec2_eq() {
    let v = v2(1.0, 1.0);
    let w = v2(1.0, 1.0);
    let x = v2(2.0, 2.0);
    assert_eq!(v, w);
    assert_ne!(v, x);
    assert_ne!(w, x);
}

#[test]
fn vec3_eq() {
    let v = v3(1.0, 1.0, 2.0);
    let w = v3(1.0, 1.0, 2.0);
    let x = v3(2.0, 2.0, 2.0);
    assert_eq!(v, w);
    assert_ne!(v, x);
    assert_ne!(w, x);
}

#[test]
fn vec4_eq() {
    let v = v4(1.0, 1.0, 1.0, 1.0);
    let w = v4(1.0, 1.0, 1.0, 1.0);
    let x = v4(1.0, 2.0, 1.0, 2.0);
    let y = v4(1.0, 2.0, 1.0, 2.0);

    assert_eq!(v, w);
    assert_eq!(w, v);
    assert_eq!(x, y);
    assert_ne!(v, x);
    assert_ne!(v, y);
}

#[test]
fn vec2_add() {
    let v = v2(1.0, 2.0);
    let w = v2(2.0, 3.0);
    let expected = v2(3.0, 5.0);
    assert_eq!(v.add(w), expected);
    assert_eq!(w.add(v), expected);
}

#[test]
fn vec3_add() {
    let v = v3(1.0, 2.0, 3.0);
    let w = v3(2.0, 3.0, 5.0);
    let expected = v3(3.0, 5.0, 8.0);
    assert_eq!(v.add(w), expected);
    assert_eq!(w.add(v), expected);
}

#[test]
fn vec4_add() {
    let v = v4(1.0, 2.0, 3.0, 4.0);
    let w = v4(1.0, 1.0, 1.0, 1.0);
    let expect = v4(2.0, 3.0, 4.0, 5.0);
    assert_eq!(v.add(w), expect);
    assert_eq!(w.add(v), expect);
}

#[test]
fn vec2_scal_add() {
    let v = v2(2.0, 3.0);
    let expect = v2(4.0, 5.0);
    let scalar = b(2.0);

    // Scalar-plus-vector and vector-plus-scalar are the same operation here.
    assert_eq!(v.add_scalar(scalar), expect);
}

#[test]
fn vec3_scal_add() {
    let v = v3(2.0, 3.0, 1.0);
    let expect = v3(4.0, 5.0, 3.0);
    let scalar = b(2.0);

    // Scalar-plus-vector and vector-plus-scalar are the same operation here.
    assert_eq!(v.add_scalar(scalar), expect);
}

#[test]
fn vec4_scal_add() {
    let v = v4(2.0, 3.0, 4.0, 5.0);
    let expect = v4(4.0, 5.0, 6.0, 7.0);
    let scalar = b(2.0);

    // Scalar-plus-vector and vector-plus-scalar are the same operation here.
    assert_eq!(v.add_scalar(scalar), expect);
}

#[test]
fn vec2_sub() {
    let v = v2(2.0, 3.0);
    let w = v2(1.0, 1.0);
    let expect1 = v2(1.0, 2.0);
    let expect2 = v2(-1.0, -2.0);

    assert_eq!(v.sub(w), expect1);
    assert_eq!(w.sub(v), expect2);
}

#[test]
fn vec3_sub() {
    let v = v3(2.0, 3.0, 5.0);
    let w = v3(1.0, 1.0, 2.0);
    let expect1 = v3(1.0, 2.0, 3.0);
    let expect2 = v3(-1.0, -2.0, -3.0);

    assert_eq!(v.sub(w), expect1);
    assert_eq!(w.sub(v), expect2);
}

#[test]
fn vec4_sub() {
    let v = v4(2.0, 3.0, 4.0, 5.0);
    let w = v4(1.0, 1.0, 2.0, 2.0);
    let expect1 = v4(1.0, 2.0, 2.0, 3.0);
    let expect2 = v4(-1.0, -2.0, -2.0, -3.0);

    assert_eq!(v.sub(w), expect1);
    assert_eq!(w.sub(v), expect2);
}

#[test]
fn vec2_scal_sub() {
    let v = v2(3.0, 2.0);
    let expect = v2(2.0, 1.0);
    let scalar = b(1.0);

    assert_eq!(v.sub_scalar(scalar), expect);
}

#[test]
fn vec3_scal_sub() {
    let v = v3(3.0, 2.0, 5.0);
    let expect = v3(2.0, 1.0, 4.0);
    let scalar = b(1.0);

    assert_eq!(v.sub_scalar(scalar), expect);
}

#[test]
fn vec4_scal_sub() {
    let v = v4(3.0, 2.0, 4.0, 1.0);
    let expect = v4(2.0, 1.0, 3.0, 0.0);
    let scalar = b(1.0);

    assert_eq!(v.sub_scalar(scalar), expect);
}

#[test]
fn vec2_scal_mul() {
    let v = v2(2.0, 4.0);
    let expect = v2(4.0, 8.0);
    let scalar = b(2.0);

    // Scalar-times-vector and vector-times-scalar are the same operation here.
    assert_eq!(v.mul_scalar(scalar), expect);
}

#[test]
fn vec3_scal_mul() {
    let v = v3(2.0, 4.0, 3.0);
    let expect = v3(4.0, 8.0, 6.0);
    let scalar = b(2.0);

    // Scalar-times-vector and vector-times-scalar are the same operation here.
    assert_eq!(v.mul_scalar(scalar), expect);
}

#[test]
fn vec4_scal_mull() {
    let v = v4(1.0, 2.0, 3.0, 4.0);
    let expect = v4(2.0, 4.0, 6.0, 8.0);
    let scalar = b(2.0);

    // Scalar-times-vector and vector-times-scalar are the same operation here.
    assert_eq!(v.mul_scalar(scalar), expect);
}

#[test]
fn vec4_mul_components() {
    let v = v4(1.0, 2.0, 3.0, 4.0);
    let w = v4(2.0, 2.0, 2.0, 2.0);
    let expect = v4(2.0, 4.0, 6.0, 8.0);

    assert_eq!(v.mul_components(w), expect);
}

#[test]
fn vec2_scal_div() {
    let v = v2(3.0, 9.0);
    let expect = v2(1.0, 3.0);
    let scalar = b(3.0);

    assert_eq!(v.div_scalar(scalar), expect);
}

#[test]
fn vec3_scal_div() {
    let v = v3(3.0, 9.0, 6.0);
    let expect = v3(1.0, 3.0, 2.0);
    let scalar = b(3.0);

    assert_eq!(v.div_scalar(scalar), expect);
}

#[test]
fn vec4_scal_div() {
    let v = v4(3.0, 9.0, 6.0, 6.0);
    let expect = v4(1.0, 3.0, 2.0, 2.0);
    let scalar = b(3.0);

    assert_eq!(v.div_scalar(scalar), expect);
}

#[test]
fn vec2_neg() {
    let v = v2(5.0, 8.0);
    let expect = v2(-5.0, -8.0);

    assert_eq!(v.neg(), expect);
    assert_eq!(expect.neg(), v);
}

#[test]
fn vec3_neg() {
    let v = v3(5.0, 8.0, 4.0);
    let expect = v3(-5.0, -8.0, -4.0);

    assert_eq!(v.neg(), expect);
    assert_eq!(expect.neg(), v);
}

#[test]
fn vec4_neg() {
    let v = v4(1.0, 2.0, 3.0, 4.0);
    let expect = v4(-1.0, -2.0, -3.0, -4.0);

    assert_eq!(v.neg(), expect);
    assert_eq!(expect.neg(), v);
}

#[test]
fn vec2_dot() {
    let v = v2(0.6, -0.8);
    let w = v2(0.0, 1.0);
    let result = b(-0.8);

    assert_eq!(v.dot(&w), result);
    assert_eq!(w.dot(&v), result);
}

#[test]
fn vec3_dot() {
    let v = v3(0.6, -0.8, 2.0);
    let w = v3(0.0, 1.0, 1.0);
    let result = b(1.2);

    assert_eq!(v.dot(&w), result);
    assert_eq!(w.dot(&v), result);
}

#[test]
fn vec4_dot() {
    let v = v4(0.6, -0.8, 2.0, 1.0);
    let w = v4(0.0, 1.0, 1.0, 1.0);
    let result = b(2.2);

    assert_eq!(v.dot(&w), result);
    assert_eq!(w.dot(&v), result);
}

#[test]
fn vec2_norm() {
    let v = v2(0.0, 1.0);
    let w = v2(0.0, 3.0);
    let x = v2(0.0, 8.0);
    let y = v2(1.0, 0.0);
    let z = v2(17.0, 0.0);

    assert_eq!(v.normalized(), v);
    assert_eq!(w.normalized(), v);
    assert_eq!(x.normalized(), v);
    assert_eq!(y.normalized(), y);
    assert_eq!(z.normalized(), y);
}

#[test]
fn vec3_norm() {
    let v = v3(0.0, 1.0, 0.0);
    let w = v3(0.0, 3.0, 0.0);
    let x = v3(0.0, 8.0, 0.0);
    let y = v3(1.0, 0.0, 0.0);
    let z = v3(17.0, 0.0, 0.0);
    let a = v3(0.0, 0.0, 1.0);
    let c = v3(0.0, 0.0, 23.0);

    assert_eq!(v.normalized(), v);
    assert_eq!(w.normalized(), v);
    assert_eq!(x.normalized(), v);
    assert_eq!(y.normalized(), y);
    assert_eq!(z.normalized(), y);
    assert_eq!(a.normalized(), a);
    assert_eq!(c.normalized(), a);
}

#[test]
fn vec4_norm() {
    let v = v4(0.0, 1.0, 0.0, 0.0);
    let w = v4(0.0, 3.0, 0.0, 0.0);
    let x = v4(0.0, 8.0, 0.0, 0.0);
    let y = v4(1.0, 0.0, 0.0, 0.0);
    let z = v4(17.0, 0.0, 0.0, 0.0);
    let a = v4(0.0, 0.0, 1.0, 0.0);
    let c = v4(0.0, 0.0, 23.0, 0.0);
    let d = v4(0.0, 0.0, 0.0, 1.0);
    let e = v4(0.0, 0.0, 0.0, 12.0);
    let f = v4(0.0, 0.0, 0.0, 5.0);

    assert_eq!(v.normalized(), v);
    assert_eq!(w.normalized(), v);
    assert_eq!(x.normalized(), v);
    assert_eq!(y.normalized(), y);
    assert_eq!(z.normalized(), y);
    assert_eq!(a.normalized(), a);
    assert_eq!(c.normalized(), a);
    assert_eq!(d.normalized(), d);
    assert_eq!(e.normalized(), d);
    assert_eq!(f.normalized(), d);
}

#[test]
fn vec3_norm_zero_vector_is_nan() {
    // Normalizing the zero vector divides by zero: the components come out
    // NaN, nothing is clamped, and NaN equals nothing (itself included).
    let v = v3(0.0, 0.0, 0.0);
    let n = v.normalized();
    assert!(f32::from_bits(n.x()).is_nan());
    assert!(f32::from_bits(n.y()).is_nan());
    assert!(f32::from_bits(n.z()).is_nan());
    assert_ne!(n, n);
}

#[test]
#[should_panic]
fn vec3_invalid_cross_product() {
    let v = v3(1.0, 0.0, 0.0);
    let w = v3(12.0, 0.0, 0.0);

    v.cross(&w);
}

#[test]
fn vec3_cross_product() {
    let v = v3(1.0, 0.0, 0.0);
    let w = v3(0.0, 1.0, 0.0);
    let expect = v3(0.0, 0.0, 1.0);

    assert_eq!(v.cross(&w), expect);
}

#[test]
fn vec3_checked_cross_parallel_is_none() {
    let v = v3(1.0, 0.0, 0.0);
    let w = v3(12.0, 0.0, 0.0);

    assert!(v.checked_cross(&w).is_none());
}

#[test]
fn vec3_checked_cross_opposite_direction_passes() {
    // The degeneracy check is the exact equality of the normalized forms, so
    // only same-direction operands are caught: exactly opposite ones
    // normalize to distinct vectors and go through to the (zero) cross
    // product.
    let v = v3(1.0, 0.0, 0.0);
    let o = v3(-2.0, 0.0, 0.0);

    assert_eq!(v.checked_cross(&o), Some(v3(0.0, 0.0, 0.0)));
}

#[test]
fn vec3_checked_cross_value() {
    let v = v3(2.0, 0.0, 0.0);
    let w = v3(0.0, 4.0, 0.0);
    let expect = v3(0.0, 0.0, 8.0);

    assert_eq!(v.checked_cross(&w), Some(expect));
}

#[test]
fn vec3_from_vec2() {
    let v = v2(1.0, 2.0);
    let w: Vector3 = (v, b(3.0)).into();
    let expect = v3(1.0, 2.0, 3.0);

    assert_eq!(w, expect);
}

#[test]
fn vec4_from_vec3() {
    let v = v3(1.0, 2.0, 3.0);
    let w: Vector4 = (v, b(4.0)).into();
    let expect = v4(1.0, 2.0, 3.0, 4.0);

    assert_eq!(w, expect);
}

#[test]
fn vec4_is_tightly_packed() {
    // The four components stand in declared order, bit for bit.
    let v = v4(1.0, 2.0, 3.0, 4.0);

    assert_eq!(v.x(), b(1.0));
    assert_eq!(v.y(), b(2.0));
    assert_eq!(v.z(), b(3.0));
    assert_eq!(v.w(), b(4.0));
}

#[test]
fn vec3_add_zero_and_mul_one() {
    let v = v3(1.5, -2.0, 3.25);
    assert_eq!(v.add(v3(0.0, 0.0, 0.0)), v);
    assert_eq!(v.add_scalar(b(0.0)), v);
    assert_eq!(v.mul_scalar(b(1.0)), v);
    assert_eq!(v.neg().neg(), v);
}

#[test]
fn vec3_sub_antisymmetry() {
    let v = v3(2.0, 3.0, 5.0);
    let w = v3(1.0, 7.0, 2.0);
    assert_eq!(v.sub(w), w.sub(v).neg());
}

#[test]
fn vec_negative_zero_equals_zero() {
    // IEEE 754 equality: the two zeros are equal, so a sign flipped onto a
    // zero component does not break vector equality.
    let v = v2(0.0, 1.0);
    assert_eq!(v2(-0.0, 1.0), v);
}
