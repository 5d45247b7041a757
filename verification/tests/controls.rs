use engine::game::controls::{
    command, switch_wireframe, KeySwitches, PolygonMode, WindowCommand, KEY_F1, KEY_F2,
    KEY_LEFT_SHIFT, KEY_SPACE,
};
use engine::game::settings::{KEY_A, KEY_D, KEY_ESCAPE, KEY_S, KEY_W};
use engine::game::InputEvent;
use engine::math::{Triangle, Vector3};
use engine::renderer::mesh::{axes_data, Vertex};

#[test]
fn key_codes() {
    assert_eq!((KEY_SPACE, KEY_F1, KEY_F2, KEY_LEFT_SHIFT), (32, 290, 291, 340));
}

#[test]
fn events_command_the_window() {
    assert_eq!(command(InputEvent::KeyPress(KEY_ESCAPE)), WindowCommand::Close);
    assert_eq!(command(InputEvent::KeyPress(KEY_F1)), WindowCommand::SwitchWireframe);
    assert_eq!(command(InputEvent::KeyPress(KEY_F2)), WindowCommand::CursorNormal);
    assert_eq!(command(InputEvent::KeyRelease(KEY_F1)), WindowCommand::CursorDisabled);
    assert_eq!(command(InputEvent::Size(640, 480)), WindowCommand::Resize(640, 480));
    assert_eq!(command(InputEvent::KeyRelease(KEY_ESCAPE)), WindowCommand::Nothing);
    assert_eq!(command(InputEvent::KeyRelease(KEY_F2)), WindowCommand::Nothing);
    assert_eq!(command(InputEvent::KeyPress(KEY_W)), WindowCommand::Nothing);
    assert_eq!(command(InputEvent::Other), WindowCommand::Nothing);
}

#[test]
fn keys_are_switches() {
    let mut keys = KeySwitches::default();
    assert_eq!(keys, KeySwitches { w: false, a: false, s: false, d: false, space: false, shift: false });
    keys.handle_event(InputEvent::KeyPress(KEY_W));
    keys.handle_event(InputEvent::KeyPress(KEY_LEFT_SHIFT));
    assert_eq!(keys, KeySwitches { w: true, shift: true, ..KeySwitches::default() });
    keys.handle_event(InputEvent::KeyPress(KEY_A));
    keys.handle_event(InputEvent::KeyPress(KEY_S));
    keys.handle_event(InputEvent::KeyPress(KEY_D));
    keys.handle_event(InputEvent::KeyPress(KEY_SPACE));
    assert_eq!(keys, KeySwitches { w: true, a: true, s: true, d: true, space: true, shift: true });
    keys.handle_event(InputEvent::KeyRelease(KEY_W));
    keys.handle_event(InputEvent::KeyRelease(KEY_SPACE));
    assert_eq!(keys, KeySwitches { w: false, a: true, s: true, d: true, space: false, shift: true });
    keys.switch(KEY_A, false);
    assert!(!keys.a);
}

#[test]
fn other_events_leave_the_switches() {
    let mut keys = KeySwitches { w: true, ..KeySwitches::default() };
    let before = keys;
    keys.handle_event(InputEvent::KeyPress(KEY_ESCAPE));
    keys.handle_event(InputEvent::KeyPress(KEY_F1));
    keys.handle_event(InputEvent::Size(1, 1));
    keys.handle_event(InputEvent::Other);
    keys.switch(12345, true);
    assert_eq!(keys, before);
}

#[test]
fn wireframe_alternates() {
    let mut wireframe = true;
    assert_eq!(switch_wireframe(&mut wireframe), PolygonMode::Line);
    assert!(!wireframe);
    assert_eq!(switch_wireframe(&mut wireframe), PolygonMode::Fill);
    assert!(wireframe);
}

#[test]
fn triangle_corners() {
    let t = Triangle::new(
        Vector3::new([0.0f32, 0.5, 0.0]),
        Vector3::new([-0.5, -0.5, 0.0]),
        Vector3::new([0.5, -0.5, 0.0]),
    );
    assert_eq!(
        t.as_array(),
        [[0.0, 0.5, 0.0], [-0.5, -0.5, 0.0], [0.5, -0.5, 0.0]]
    );
}

#[test]
fn axis_arrows() {
    let d = axes_data::<f32>();
    assert_eq!(d.indices, vec![0, 1, 2, 3, 4, 5]);
    assert_eq!(
        d.vertices,
        vec![
            Vertex { position: [0.0, 0.0, 0.0], color: [1.0, 0.0, 0.0, 1.0], uv: [0.0, 0.0] },
            Vertex { position: [1.0, 0.0, 0.0], color: [1.0, 0.0, 0.0, 1.0], uv: [0.0, 0.0] },
            Vertex { position: [0.0, 0.0, 0.0], color: [0.0, 1.0, 0.0, 1.0], uv: [0.0, 0.0] },
            Vertex { position: [0.0, 1.0, 0.0], color: [0.0, 1.0, 0.0, 1.0], uv: [0.0, 0.0] },
            Vertex { position: [0.0, 0.0, 0.0], color: [0.0, 0.0, 1.0, 1.0], uv: [0.0, 0.0] },
            Vertex { position: [0.0, 0.0, 1.0], color: [0.0, 0.0, 1.0, 1.0], uv: [0.0, 0.0] },
        ]
    );
}
