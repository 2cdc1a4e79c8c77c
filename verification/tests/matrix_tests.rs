use scop::matrix2::Matrix2;
use scop::matrix3::Matrix3;
use scop::matrix4::Matrix4;
use scop::vector2::Vector2;
use scop::vector3::Vector3;
use scop::vector4::Vector4;

fn b(x: f32) -> u32 {
    x.to_bits()
}

fn v2(x: f32, y: f32) -> Vector2 {
    Vector2::new(b(x), b(y))
}

fn v3(x: f32, y: f32, z: f32) -> Vector3 {
    Vector3::new(b(x), b(y), b(z))
}

fn v4(x: f32, y: f32, z: f32, w: f32) -> Vector4 {
    Vector4::new(b(x), b(y), b(z), b(w))
}

#[test]
fn mat2_add() {
    let m1 = Matrix2::new(v2(1.0, 2.0), v2(3.0, 4.0));
    let result = Matrix2::new(v2(2.0, 4.0), v2(6.0, 8.0));

    assert_eq!(m1.add(m1), result);
}

#[test]
fn mat3_add() {
    let m1 = Matrix3::new(v3(1.0, 2.0, 3.0), v3(4.0, 5.0, 6.0), v3(7.0, 8.0, 9.0));

    let result = Matrix3::new(v3(2.0, 4.0, 6.0), v3(8.0, 10.0, 12.0), v3(14.0, 16.0, 18.0));

    assert_eq!(m1.add(m1), result);
}

#[test]
fn mat4_add() {
    let m1 = Matrix4::new(
        v4(1.0, 2.0, 3.0, 4.0),
        v4(2.0, 3.0, 4.0, 5.0),
        v4(3.0, 4.0, 5.0, 6.0),
        v4(4.0, 5.0, 6.0, 7.0),
    );

    let result = Matrix4::new(
        v4(2.0, 4.0, 6.0, 8.0),
        v4(4.0, 6.0, 8.0, 10.0),
        v4(6.0, 8.0, 10.0, 12.0),
        v4(8.0, 10.0, 12.0, 14.0),
    );

    assert_eq!(m1.add(m1), result);
}

#[test]
fn mat2_sub() {
    let m1 = Matrix2::new(v2(2.0, 2.0), v2(3.0, 3.0));
    let m2 = Matrix2::new(v2(1.0, 2.0), v2(3.0, 4.0));
    let result = Matrix2::new(v2(1.0, 0.0), v2(0.0, -1.0));

    assert_eq!(m1.sub(m2), result);
}

#[test]
fn mat3_sub() {
    let m1 = Matrix3::new(v3(1.0, 2.0, 3.0), v3(4.0, 5.0, 6.0), v3(7.0, 8.0, 9.0));
    let m2 = Matrix3::new(v3(9.0, 8.0, 7.0), v3(6.0, 5.0, 4.0), v3(3.0, 2.0, 1.0));
    let result = Matrix3::new(v3(-8.0, -6.0, -4.0), v3(-2.0, 0.0, 2.0), v3(4.0, 6.0, 8.0));

    assert_eq!(m1.sub(m2), result);
}

#[test]
fn mat4_sub() {
    let m1 = Matrix4::new(
        v4(1.0, 2.0, 3.0, 4.0),
        v4(4.0, 3.0, 2.0, 1.0),
        v4(2.0, 1.0, 4.0, 3.0),
        v4(3.0, 4.0, 1.0, 2.0),
    );

    let m2 = Matrix4::new_identity();

    let result = Matrix4::new(
        v4(0.0, 2.0, 3.0, 4.0),
        v4(4.0, 2.0, 2.0, 1.0),
        v4(2.0, 1.0, 3.0, 3.0),
        v4(3.0, 4.0, 1.0, 1.0),
    );

    assert_eq!(m1.sub(m2), result);
}

#[test]
fn mat2_mul() {
    let m1 = Matrix2::new(v2(1.0, 2.0), v2(3.0, 4.0));
    let m2 = Matrix2::new(v2(5.0, 6.0), v2(7.0, 8.0));
    let result = Matrix2::new(v2(19.0, 22.0), v2(43.0, 50.0));

    assert_eq!(m1.mul(m2), result);
}

#[test]
fn mat3_mul() {
    let m1 = Matrix3::new(v3(4.0, 2.0, 0.0), v3(0.0, 8.0, 1.0), v3(0.0, 1.0, 0.0));

    let m2 = Matrix3::new(v3(4.0, 2.0, 1.0), v3(2.0, 0.0, 4.0), v3(9.0, 4.0, 2.0));

    let result = Matrix3::new(v3(20.0, 8.0, 12.0), v3(25.0, 4.0, 34.0), v3(2.0, 0.0, 4.0));

    assert_eq!(m1.mul(m2), result);
}

#[test]
fn mat4_mul() {
    let m1 = Matrix4::new(
        v4(1.0, 1.0, 1.0, 1.0),
        v4(2.0, 2.0, 2.0, 2.0),
        v4(3.0, 3.0, 3.0, 3.0),
        v4(4.0, 4.0, 4.0, 4.0),
    );
    let m2 = Matrix4::new_identity();
    assert_eq!(m1.mul(m2), m1);
}

#[test]
fn mat4_identity_mul_left() {
    let m1 = Matrix4::new(
        v4(1.0, 2.0, 3.0, 4.0),
        v4(5.0, 6.0, 7.0, 8.0),
        v4(9.0, 10.0, 11.0, 12.0),
        v4(13.0, 14.0, 15.0, 16.0),
    );
    let id = Matrix4::new_identity();
    assert_eq!(id.mul(m1), m1);
    assert_eq!(m1.mul(id), m1);
}

#[test]
fn mat3_identity_laws() {
    let m = Matrix3::new(v3(1.0, 2.0, 3.0), v3(4.0, 5.0, 6.0), v3(7.0, 8.0, 9.0));
    let id = Matrix3::new_identity();
    assert_eq!(m.mul(id), m);
    assert_eq!(id.mul(m), m);
}

#[test]
fn mat2_identity_laws() {
    let m = Matrix2::new(v2(1.0, 2.0), v2(3.0, 4.0));
    let id = Matrix2::new_identity();
    assert_eq!(m.mul(id), m);
    assert_eq!(id.mul(m), m);
}

#[test]
fn mat2_mul_vec2() {
    let m = Matrix2::new(v2(1.0, 2.0), v2(3.0, 4.0));
    let v = v2(1.0, 2.0);
    let result = v2(5.0, 11.0);

    assert_eq!(m.mul_vector(v), result);
}

#[test]
fn mat3_mul_vec3() {
    let m = Matrix3::new(v3(1.0, 1.0, 1.0), v3(1.0, 1.0, 1.0), v3(1.0, 1.0, 1.0));

    let v = v3(1.0, 2.0, 3.0);

    let result = v3(6.0, 6.0, 6.0);

    assert_eq!(m.mul_vector(v), result);
}

#[test]
fn mat4_mul_vec4() {
    let m = Matrix4::new(
        v4(1.0, 1.0, 1.0, 1.0),
        v4(1.0, 1.0, 1.0, 1.0),
        v4(1.0, 1.0, 1.0, 1.0),
        v4(1.0, 1.0, 1.0, 1.0),
    );

    let v = v4(1.0, 2.0, 3.0, 4.0);
    let result = v4(10.0, 10.0, 10.0, 10.0);

    assert_eq!(m.mul_vector(v), result);
}

#[test]
fn mat_empty_is_all_zero() {
    let m = Matrix2::new_empty();
    assert_eq!(m, Matrix2::new(v2(0.0, 0.0), v2(0.0, 0.0)));
    let m3 = Matrix3::new_empty();
    assert_eq!(m3, Matrix3::new(v3(0.0, 0.0, 0.0), v3(0.0, 0.0, 0.0), v3(0.0, 0.0, 0.0)));
    let m4 = Matrix4::new_empty();
    assert_eq!(m4.flat(), vec![0u32; 16]);
}

#[test]
fn mat3_transposed() {
    let m = Matrix3::new(v3(1.0, 2.0, 3.0), v3(4.0, 5.0, 6.0), v3(7.0, 8.0, 9.0));
    let t = Matrix3::new(v3(1.0, 4.0, 7.0), v3(2.0, 5.0, 8.0), v3(3.0, 6.0, 9.0));
    assert_eq!(m.transposed(), t);
    assert_eq!(m.transposed().transposed(), m);
}

#[test]
fn mat4_transposed() {
    let m = Matrix4::new(
        v4(1.0, 2.0, 3.0, 4.0),
        v4(5.0, 6.0, 7.0, 8.0),
        v4(9.0, 10.0, 11.0, 12.0),
        v4(13.0, 14.0, 15.0, 16.0),
    );
    let t = Matrix4::new(
        v4(1.0, 5.0, 9.0, 13.0),
        v4(2.0, 6.0, 10.0, 14.0),
        v4(3.0, 7.0, 11.0, 15.0),
        v4(4.0, 8.0, 12.0, 16.0),
    );
    assert_eq!(m.transposed(), t);
    assert_eq!(m.transposed().transposed(), m);
}

#[test]
fn mat4_scal_mul() {
    let m = Matrix4::new_identity();
    let result = m.mul_scalar(b(3.0));
    let expect = Matrix4::new(
        v4(3.0, 0.0, 0.0, 0.0),
        v4(0.0, 3.0, 0.0, 0.0),
        v4(0.0, 0.0, 3.0, 0.0),
        v4(0.0, 0.0, 0.0, 3.0),
    );
    assert_eq!(result, expect);
}

#[test]
fn translate() {
    let m = Matrix4::new_identity();
    let v = v3(1.0, 2.0, 3.0);
    let result = Matrix4::new(
        v4(1.0, 0.0, 0.0, 1.0),
        v4(0.0, 1.0, 0.0, 2.0),
        v4(0.0, 0.0, 1.0, 3.0),
        v4(0.0, 0.0, 0.0, 1.0),
    );

    assert_eq!(scop::translate(&m, &v), result);
}

#[test]
fn scale_diagonal() {
    let m = Matrix4::new_identity();
    let v = v3(2.0, 3.0, 4.0);
    let result = Matrix4::new(
        v4(2.0, 0.0, 0.0, 0.0),
        v4(0.0, 3.0, 0.0, 0.0),
        v4(0.0, 0.0, 4.0, 0.0),
        v4(0.0, 0.0, 0.0, 1.0),
    );

    assert_eq!(scop::scale(&m, &v), result);
}

#[test]
fn rotate_quarter_turn_about_z() {
    // cos 90 degrees = 0, sin 90 degrees = 1; the axis (0, 0, 5) is
    // normalized inside `rotate`, so the quarter turn about z maps
    // x to y and y to -x.
    let m = Matrix4::new_identity();
    let r = scop::rotate(&m, b(0.0), b(1.0), &v3(0.0, 0.0, 5.0));
    let expect = Matrix4::new(
        v4(0.0, -1.0, 0.0, 0.0),
        v4(1.0, 0.0, 0.0, 0.0),
        v4(0.0, 0.0, 1.0, 0.0),
        v4(0.0, 0.0, 0.0, 1.0),
    );
    assert_eq!(r, expect);
}

#[test]
fn rotate_zero_angle_is_identity() {
    // cos 0 = 1, sin 0 = 0: rotating by nothing leaves the identity.
    let m = Matrix4::new_identity();
    let r = scop::rotate(&m, b(1.0), b(0.0), &v3(0.0, 1.0, 0.0));
    assert_eq!(r, m);
}

#[test]
fn perspective_entries() {
    // tan of the half field of view 1, aspect 2, near 1, far 3:
    // 1/(2*1) = 0.5, 1/1 = 1, -(3+1)/(3-1) = -2, -(2*3*1)/(3-1) = -3.
    let m = Matrix4::new_perspective(b(1.0), b(2.0), b(1.0), b(3.0));
    let expect = Matrix4::new(
        v4(0.5, 0.0, 0.0, 0.0),
        v4(0.0, 1.0, 0.0, 0.0),
        v4(0.0, 0.0, -2.0, -3.0),
        v4(0.0, 0.0, -1.0, 0.0),
    );
    assert_eq!(m, expect);
}

#[test]
fn perspective_degenerate_planes_give_nan() {
    // near == far divides by zero: the affected entries degenerate silently
    // per IEEE 754 instead of failing.
    let m = Matrix4::new_perspective(b(1.0), b(1.0), b(2.0), b(2.0));
    assert!(f32::from_bits(m.r3.z()).is_nan() || f32::from_bits(m.r3.z()).is_infinite());
}

#[test]
fn look_at_canonical_view() {
    // Looking from (0, 0, 15) at the origin with y up: the basis is the
    // standard one and the translation moves the eye 15 units down z.
    let view = scop::look_at(&v3(0.0, 0.0, 15.0), &v3(0.0, 0.0, 0.0), &v3(0.0, 1.0, 0.0));
    let expect = Matrix4::new(
        v4(1.0, 0.0, 0.0, 0.0),
        v4(0.0, 1.0, 0.0, 0.0),
        v4(0.0, 0.0, 1.0, -15.0),
        v4(0.0, 0.0, 0.0, 1.0),
    );
    assert_eq!(view, expect);
}

#[test]
fn checked_look_at_degenerate_up_is_none() {
    // The up hint parallel to the view direction leaves no usable basis.
    let r = scop::checked_look_at(&v3(0.0, 0.0, 1.0), &v3(0.0, 0.0, 0.0), &v3(0.0, 0.0, 1.0));
    assert!(r.is_none());
}

#[test]
fn mat4_is_tightly_packed() {
    let w1 = v4(1.0, 2.0, 3.0, 4.0);
    let w2 = v4(5.0, 6.0, 7.0, 8.0);
    let w3 = v4(9.0, 10.0, 11.0, 12.0);
    let w4 = v4(13.0, 14.0, 15.0, 16.0);
    let m = Matrix4::new(w1, w2, w3, w4);

    // The flat form is the sixteen components row-major, in declared order.
    let flat = m.flat();
    let mut expect: Vec<u32> = Vec::new();
    for i in 1..17 {
        expect.push(b(i as f32));
    }
    assert_eq!(flat, expect);

    assert_eq!(m.r1, w1);
    assert_eq!(m.r2, w2);
    assert_eq!(m.r3, w3);
    assert_eq!(m.r4, w4);
}
