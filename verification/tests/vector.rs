use engine::math::{Quaternion, Vector, Vector3, Vector4};

#[test]
fn vector_arithmetic_is_componentwise() {
    let a = Vector::new([1.0f32, 2.0, 3.0]);
    let b = Vector::new([4.0f32, 5.0, 6.0]);
    assert_eq!(a + b, Vector::new([5.0, 7.0, 9.0]));
    assert_eq!(a - b, Vector::new([-3.0, -3.0, -3.0]));
    assert_eq!(a * b, Vector::new([4.0, 10.0, 18.0]));
    assert_eq!(b / a, Vector::new([4.0, 2.5, 2.0]));
    assert_eq!(a * 2.0, Vector::new([2.0, 4.0, 6.0]));
    assert_eq!(-a, Vector::new([-1.0, -2.0, -3.0]));
}

#[test]
fn vector_of_integers() {
    let a = Vector::new([1i32, -2]);
    let b = Vector::new([10i32, 20]);
    assert_eq!(a + b, Vector::new([11, 18]));
    assert_eq!(a * b, Vector::new([10, -40]));
    assert_eq!(b / a, Vector::new([10, -10]));
}

#[test]
fn new_and_as_array_are_inverse() {
    let v = Vector::new([1.5f32, 2.5]);
    assert_eq!(v.as_array(), [1.5, 2.5]);
    assert_eq!(v.get(1), 2.5);
    assert_eq!(Vector::new(v.as_array()), v);
}

#[test]
fn dot_product() {
    let a = Vector::new([1.0f32, 2.0, 3.0]);
    let b = Vector::new([4.0f32, -5.0, 6.0]);
    assert_eq!(a.dot(&b), 12.0);
    assert_eq!(a.length_squared(), 14.0);
    let e: Vector<f32, 0> = Vector::new([]);
    assert_eq!(e.dot(&e), 0.0);
}

#[test]
fn normalized_vector_has_length_one() {
    let v = Vector::new([3.0f32, 0.0, 4.0]);
    let length = v.length_squared().sqrt();
    assert_eq!(length, 5.0);
    let n = v.normalized_by(length);
    assert_eq!(n, Vector::new([0.6, 0.0, 0.8]));
    assert!((n.length_squared().sqrt() - 1.0).abs() < 1e-6);
}

#[test]
fn normalizing_the_zero_vector_gives_nan() {
    let v = Vector::new([0.0f32, 0.0]);
    let n = v.normalized_by(v.length_squared().sqrt());
    assert!(n.get(0).is_nan());
    assert!(n.get(1).is_nan());
}

#[test]
fn cross_product() {
    let x = Vector3::new([1, 0, 0]);
    let y = Vector3::new([0, 1, 0]);
    let z = Vector3::new([0, 0, 1]);
    assert_eq!(x.cross(&y), z);
    assert_eq!(y.cross(&z), x);
    assert_eq!(z.cross(&x), y);
    assert_eq!(y.cross(&x), Vector3::new([0, 0, -1]));
    let a = Vector3::new([2.0f32, 3.0, 4.0]);
    let b = Vector3::new([5.0f32, 6.0, 7.0]);
    assert_eq!(a.cross(&b), Vector3::new([-3.0, 6.0, -3.0]));
}

#[test]
fn up_and_front() {
    assert_eq!(Vector3::<f32>::up(), Vector3::new([0.0, 1.0, 0.0]));
    assert_eq!(Vector3::<f32>::front(), Vector3::new([0.0, 0.0, 1.0]));
}

#[test]
fn scaled_multiplies_each_axis() {
    let v = Vector4::new([1.0f32, 2.0, 3.0, 1.0]);
    assert_eq!(
        v.scaled(Vector3::new([2.0, 3.0, 4.0])),
        Vector4::new([2.0, 6.0, 12.0, 1.0])
    );
    let w = Vector3::new([1, 2, 3]);
    assert_eq!(w.scaled(Vector3::new([2, 3, 4])), Vector3::new([2, 6, 12]));
}

#[test]
fn translated_multiplies_by_the_offset_matrix() {
    let v = Vector4::new([1.0f32, 2.0, 3.0, 2.0]);
    assert_eq!(
        v.translated(Vector3::new([5.0, 6.0, 7.0])),
        Vector4::new([10.0, 12.0, 14.0, 2.0])
    );
    let w = Vector3::new([1, 2, 3]);
    assert_eq!(
        w.translated(Vector3::new([5, 6, 7])),
        Vector3::new([15, 18, 21])
    );
}

#[test]
fn rotated_by_the_identity_is_unchanged() {
    let v = Vector4::new([1, 2, 3, 4]);
    assert_eq!(v.rotated(Quaternion::<i32>::identity()), v);
    let w = Vector3::new([1.5f32, -2.0, 3.0]);
    assert_eq!(w.rotated(Quaternion::identity()), w);
}
