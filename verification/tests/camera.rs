use engine::game::GameObject;
use engine::math::{Matrix, Quaternion, Vector3};
use engine::renderer::Camera;

fn focal_scale(fov_deg: f32) -> f32 {
    1.0 / (fov_deg.to_radians() / 2.0).tan()
}

fn camera(fov: f32, aspect: f32, far: f32) -> Camera<f32> {
    Camera::new(
        Vector3::new([0.0, 0.0, 0.0]),
        Quaternion::identity(),
        fov,
        focal_scale(fov),
        aspect,
        far,
    )
}

#[test]
fn changing_the_aspect_ratio_rescales_the_perspective() {
    let mut c = camera(90.0, 1.0, 100.0);
    assert_eq!(c.near(), 0.1);
    let before = c.perspective().0[0][0];
    c.change_aspect_ratio(2.0);
    let after = c.perspective().0[0][0];
    assert_eq!(after, before * 0.5);
    assert_eq!(c.aspect_ratio(), 2.0);
    assert_eq!(c.perspective(), engine::math::perspective(focal_scale(90.0), 2.0, 0.1, 100.0));
}

#[test]
fn changing_the_fov_recomputes_the_perspective() {
    let mut c = camera(90.0, 1.5, 100.0);
    c.change_fov(60.0, focal_scale(60.0));
    assert_eq!(c.fov(), 60.0);
    assert_eq!(c.perspective(), engine::math::perspective(focal_scale(60.0), 1.5, 0.1, 100.0));
    assert_eq!(c.perspective().0[1][1], focal_scale(60.0));
}

#[test]
fn perspective_of_a_new_camera() {
    let c = Camera::new(
        Vector3::new([1.0f32, 2.0, 3.0]),
        Quaternion::identity(),
        90.0,
        1.0,
        2.0,
        100.0,
    );
    let p = c.perspective();
    assert_eq!(p.0[0], [0.5, 0.0, 0.0, 0.0]);
    assert_eq!(p.0[1], [0.0, 1.0, 0.0, 0.0]);
    assert_eq!(p.0[2][2], (100.0 + 0.1) / (0.1 - 100.0));
    assert_eq!(p.0[2][3], (2.0 * 100.0 * 0.1) / (0.1 - 100.0));
    assert_eq!(p.0[3], [0.0, 0.0, -1.0, 0.0]);
    assert_eq!(c.far(), 100.0);
}

#[test]
fn default_camera() {
    let c = Camera::<f32>::default();
    assert_eq!(c.get_position(), Vector3::new([0.0, 0.0, 0.0]));
    assert_eq!(c.fov(), 90.0);
    assert_eq!(c.aspect_ratio(), 1.0);
    assert_eq!(c.far(), 100.0);
    assert_eq!(c.perspective().0[0][0], 1.0);
}

#[test]
fn moving_and_turning_keep_the_perspective() {
    let mut c = camera(90.0, 1.0, 100.0);
    let p = c.perspective();
    c.set_position(Vector3::new([1.0, 2.0, 3.0]));
    c.change_position(Vector3::new([0.5, 0.5, 0.5]));
    assert_eq!(c.get_position(), Vector3::new([1.5, 2.5, 3.5]));
    let turn = Quaternion { w: 0.0, x: 0.0, y: 1.0, z: 0.0 };
    c.set_rotation(turn);
    c.rotate(turn);
    let r = c.get_rotation();
    assert_eq!((r.w, r.x, r.y, r.z), (-1.0, 0.0, 0.0, 0.0));
    assert_eq!(c.perspective(), p);
}

#[test]
fn camera_is_a_game_object_without_a_mesh() {
    let mut c = camera(90.0, 1.0, 100.0);
    assert!(GameObject::get_mesh(&c).is_none());
    GameObject::set_position(&mut c, Vector3::new([1.0, 1.0, 1.0]));
    GameObject::change_position(&mut c, Vector3::new([1.0, 2.0, 3.0]));
    assert_eq!(GameObject::get_position(&c), Vector3::new([2.0, 3.0, 4.0]));
    let turn = Quaternion { w: 0.0, x: 1.0, y: 0.0, z: 0.0 };
    GameObject::rotate(&mut c, turn);
    let r = GameObject::get_rotation(&c);
    assert_eq!((r.w, r.x, r.y, r.z), (0.0, 1.0, 0.0, 0.0));
}

#[test]
fn identity_orientation_looks_down_the_negative_z_axis() {
    let c = camera(90.0, 1.0, 100.0);
    assert_eq!(c.view_direction(), Vector3::new([0.0, 0.0, -1.0]));
}

#[test]
fn look_at_of_the_identity_orientation() {
    let mut c = camera(90.0, 1.0, 100.0);
    c.set_position(Vector3::new([1.0, 2.0, 3.0]));
    let forward = c.view_direction();
    let right = forward.cross(&Vector3::up());
    assert_eq!(right, Vector3::new([1.0, 0.0, 0.0]));
    let view = c.look_at(forward, right);
    assert_eq!(
        view,
        Matrix::from_arrays([
            [1.0, 0.0, 0.0, 1.0],
            [0.0, 1.0, 0.0, -2.0],
            [0.0, 0.0, 1.0, 3.0],
            [0.0, 0.0, 0.0, 1.0],
        ])
    );
}

#[test]
fn look_at_with_integers() {
    let mut c = Camera::new(
        Vector3::new([0i64, 0, 0]),
        Quaternion::identity(),
        90,
        1,
        1,
        100,
    );
    c.set_position(Vector3::new([2, 3, 4]));
    let view = c.look_at(Vector3::new([0, 0, -1]), Vector3::new([1, 0, 0]));
    assert_eq!(
        view,
        Matrix::from_arrays([[1, 0, 0, 2], [0, 1, 0, -3], [0, 0, 1, 4], [0, 0, 0, 1]])
    );
}
