use engine::math::{Matrix, Quaternion, Vector3, Vector4};
use std::f32::consts::PI;

fn approx_eq(a: f32, b: f32) -> bool {
    (a - b).abs() < 1e-6
}

fn from_radian_vect(angle: f32, axis: Vector3<f32>) -> Quaternion<f32> {
    Quaternion::from_rotation(
        (angle / 2.0).cos(),
        (angle / 2.0).sin(),
        axis,
        axis.length_squared().sqrt(),
    )
}

#[test]
fn rotate_vector() {
    let q = from_radian_vect(PI / 2.0, Vector3::new([0.0, 0.0, 1.0]));
    let v = Vector4::new([1.0, 0.0, 0.0, 1.0]);
    let w = Vector4::new([0.0, 1.0, 0.0, 1.0]);
    let r = v.rotated(q);
    for i in 0..4 {
        assert!(approx_eq(r.get(i), w.get(i)));
    }
}

#[test]
fn quat_ident_mul() {
    let q = Quaternion { w: 0.70710677, x: 0.0, y: 0.70710677, z: 0.0 };
    let id = Quaternion::identity();

    let mul = q * id;
    assert!(approx_eq(mul.w, q.w));
    assert!(approx_eq(mul.x, q.x));
    assert!(approx_eq(mul.y, q.y));
    assert!(approx_eq(mul.z, q.z));
}

#[test]
fn quat_mul() {
    let q = Quaternion { w: 0.70710677, x: 0.0, y: 0.70710677, z: 0.0 };
    let id = from_radian_vect(90.0f32.to_radians(), Vector3::new([0.0, 1.0, 0.0]));

    let mul = q * id;
    assert!(approx_eq(mul.w, 0.0));
    assert!(approx_eq(mul.x, 0.0));
    assert!(approx_eq(mul.y, 1.0));
    assert!(approx_eq(mul.z, 0.0));
}

#[test]
fn identity_is_one_zero_zero_zero() {
    let id = Quaternion::<f32>::identity();
    assert_eq!((id.w, id.x, id.y, id.z), (1.0, 0.0, 0.0, 0.0));
}

#[test]
fn identity_is_neutral_for_integer_quaternions() {
    let q = Quaternion { w: 3i64, x: -4, y: 5, z: 6 };
    let id = Quaternion::<i64>::identity();
    let r = q * id;
    assert_eq!((r.w, r.x, r.y, r.z), (3, -4, 5, 6));
    let l = id * q;
    assert_eq!((l.w, l.x, l.y, l.z), (3, -4, 5, 6));
}

#[test]
fn hamilton_product_of_the_units() {
    let i = Quaternion { w: 0, x: 1, y: 0, z: 0 };
    let j = Quaternion { w: 0, x: 0, y: 1, z: 0 };
    let k = i * j;
    assert_eq!((k.w, k.x, k.y, k.z), (0, 0, 0, 1));
    let m = j * i;
    assert_eq!((m.w, m.x, m.y, m.z), (0, 0, 0, -1));
    let s = i * i;
    assert_eq!((s.w, s.x, s.y, s.z), (-1, 0, 0, 0));
}

#[test]
fn hamilton_product_exact_value() {
    let a = Quaternion { w: 1, x: 2, y: 3, z: 4 };
    let b = Quaternion { w: 5, x: 6, y: 7, z: 8 };
    let p = a * b;
    assert_eq!((p.w, p.x, p.y, p.z), (-60, 12, 30, 24));
    let h = a.hamilton(b);
    assert_eq!((h.w, h.x, h.y, h.z), (-60, 12, 30, 24));
}

#[test]
fn zero_axis_yields_the_identity() {
    let q = from_radian_vect(1.0, Vector3::new([0.0, 0.0, 0.0]));
    assert_eq!((q.w, q.x, q.y, q.z), (1.0, 0.0, 0.0, 0.0));
}

#[test]
fn axis_is_normalized() {
    let q = Quaternion::from_rotation(0.0f32, 1.0, Vector3::new([0.0, 3.0, 4.0]), 5.0);
    assert_eq!((q.w, q.x, q.y, q.z), (0.0, 0.0, 0.6, 0.8));
}

#[test]
fn rotation_matrix_of_the_identity() {
    let id = Quaternion::<f32>::identity();
    assert_eq!(id.to_matrix3x3(), Matrix::identity());
    assert_eq!(id.to_matrix4x4(), Matrix::identity());
}

#[test]
fn rotation_matrix_by_the_formula() {
    let q = Quaternion { w: 0, x: 1, y: 0, z: 0 };
    assert_eq!(
        q.to_matrix3x3(),
        Matrix::from_arrays([[1, 0, 0], [0, -1, 0], [0, 0, -1]])
    );
    let r = Quaternion { w: 1, x: 2, y: 3, z: 4 };
    assert_eq!(
        r.to_matrix4x4(),
        Matrix::from_arrays([
            [-49, 4, 22, 0],
            [20, -39, 20, 0],
            [10, 28, -25, 0],
            [0, 0, 0, 1],
        ])
    );
}
