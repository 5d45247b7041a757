use engine::game::driver::{outcome, Outcome};
use engine::game::input::count_taken;
use engine::game::scene::keep_present;
use engine::game::settings::{KEY_D, KEY_W};
use engine::game::{Effect, GameAction, Input, InputEvent, InputSettings};
use engine::math::Matrix;
use engine::renderer::mesh::DrawCall;

fn call(handle: u32) -> DrawCall<f32> {
    DrawCall {
        textures: vec![handle],
        translation: Matrix::identity(),
        rotation: Matrix::identity(),
        vertex_array: handle,
        element_buffer: handle + 1,
        indices_count: 3,
    }
}

#[test]
fn present_calls_are_kept_in_order() {
    assert_eq!(
        keep_present(vec![Some(call(1)), None, Some(call(2)), None, None, Some(call(3))]),
        vec![call(1), call(2), call(3)]
    );
    assert_eq!(keep_present(vec![None, Some(call(9))]), vec![call(9)]);
}

#[test]
fn nothing_present_keeps_nothing() {
    assert_eq!(keep_present::<f32>(vec![]), vec![]);
    assert_eq!(keep_present::<f32>(vec![None, None]), vec![]);
}

#[test]
fn outcome_of_no_effects() {
    assert_eq!(outcome(&vec![]), Outcome { close: false, viewport: None, camera: None });
}

#[test]
fn outcome_takes_the_last_resize() {
    let o = outcome(&vec![Effect::Resize(1, 2), Effect::Resize(3, 4)]);
    assert_eq!(o, Outcome { close: false, viewport: Some((3, 4)), camera: Some((3, 4)) });
}

#[test]
fn a_resize_does_not_reach_a_later_scene() {
    let o = outcome(&vec![Effect::Resize(1, 2), Effect::SceneChanged, Effect::Close]);
    assert_eq!(o, Outcome { close: true, viewport: Some((1, 2)), camera: None });
    let o = outcome(&vec![
        Effect::Resize(1, 2),
        Effect::SceneChanged,
        Effect::Resize(5, 6),
        Effect::SceneChanged,
        Effect::Resize(7, 8),
    ]);
    assert_eq!(o, Outcome { close: false, viewport: Some((7, 8)), camera: Some((7, 8)) });
}

#[test]
fn events_taken_by_one_run() {
    assert_eq!(count_taken(&vec![]), 0);
    assert_eq!(count_taken(&vec![InputEvent::Other, InputEvent::KeyPress(KEY_W)]), 2);
    assert_eq!(
        count_taken(&vec![InputEvent::Other, InputEvent::Size(1, 1), InputEvent::Other]),
        2
    );
    assert_eq!(count_taken(&vec![InputEvent::Size(1, 1), InputEvent::Size(2, 2)]), 1);
}

#[test]
fn the_queue_keeps_what_follows_a_resize() {
    let mut input: Input<f32> = Input::from_settings(&InputSettings::default());
    let mut queue = vec![
        InputEvent::KeyPress(KEY_W),
        InputEvent::Size(1, 1),
        InputEvent::KeyPress(KEY_D),
        InputEvent::Size(2, 2),
    ];
    match input.process_queue(&mut queue) {
        Ok(GameAction::Resize(w, h)) => assert_eq!((w, h), (1, 1)),
        _ => panic!("expected a resize"),
    }
    assert_eq!((input.forward.0, input.right.0), (1.0, 0.0));
    assert_eq!(queue, vec![InputEvent::KeyPress(KEY_D), InputEvent::Size(2, 2)]);

    match input.process_queue(&mut queue) {
        Ok(GameAction::Resize(w, h)) => assert_eq!((w, h), (2, 2)),
        _ => panic!("expected a resize"),
    }
    assert_eq!((input.forward.0, input.right.0), (1.0, 1.0));
    assert!(queue.is_empty());

    assert!(matches!(input.process_queue(&mut queue), Ok(GameAction::NoAction)));
    assert!(queue.is_empty());
}

#[test]
fn a_queue_without_a_resize_is_emptied() {
    let mut input: Input<f32> = Input::from_settings(&InputSettings::default());
    let mut queue = vec![InputEvent::KeyPress(KEY_D), InputEvent::Other];
    assert!(matches!(input.process_queue(&mut queue), Ok(GameAction::NoAction)));
    assert_eq!(input.right.0, 1.0);
    assert!(queue.is_empty());
}
