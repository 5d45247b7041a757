use engine::game::settings::{KEY_A, KEY_D, KEY_ESCAPE, KEY_S, KEY_W};
use engine::game::{
    Effect, EmptyScene, Game, GameAction, GameError, GameObject, GameScene, GameState, Input,
    InputEvent, InputSettings, LoadingScene, MenuScene, Scene, Settings, StateKind,
    MAX_TRANSITIONS,
};
use engine::math::{Matrix, Quaternion, Vector3};
use engine::renderer::buffers::{ElementBufferObject, VertexArrayObject, VertexBufferObject};
use engine::game::scene::collect_draw_calls;
use engine::renderer::mesh::{Mesh, StaticMesh};
use engine::renderer::{Camera, WindowMode};

fn settings() -> Settings {
    Settings {
        game_title: "engine",
        window_size: (500, 500),
        window_mode: WindowMode::Windowed,
        input_settings: InputSettings::default(),
    }
}

fn camera_at(x: f32) -> Camera<f32> {
    Camera::new(Vector3::new([x, 0.0, 0.0]), Quaternion::identity(), 90.0, 1.0, 1.0, 100.0)
}

fn act(game: &mut Game<f32>, action: GameAction<f32>) -> Result<Vec<Effect>, GameError> {
    let mut effects = vec![];
    game.apply_action(action, &mut effects).map(|_| effects)
}

fn act_all(game: &mut Game<f32>, actions: Vec<GameAction<f32>>) -> Result<Vec<Effect>, GameError> {
    let mut effects = vec![];
    game.apply_actions(actions, &mut effects).map(|_| effects)
}

fn begin(game: &mut Game<f32>, state: GameState<f32>) -> Result<Vec<Effect>, GameError> {
    let mut effects = vec![];
    game.start(state, &mut effects).map(|_| effects)
}

fn frame(game: &mut Game<f32>, input: &Input<f32>) -> Result<Vec<Effect>, GameError> {
    let mut effects = vec![];
    game.update(input, &mut effects).map(|_| effects)
}

fn input() -> Input<f32> {
    Input::from_settings(&InputSettings::default())
}

struct Block {
    mesh: Option<StaticMesh<f32>>,
    position: Vector3<f32>,
    rotation: Quaternion<f32>,
}

impl Block {
    fn new(handle: u32, with_mesh: bool) -> Self {
        let position = Vector3::new([handle as f32, 0.0, 0.0]);
        let rotation = Quaternion::identity();
        let mesh = if with_mesh {
            Some(StaticMesh::new(
                VertexArrayObject(handle),
                VertexBufferObject(handle + 100),
                ElementBufferObject(handle + 200),
                3,
                position,
                rotation,
                vec![],
            ))
        } else {
            None
        };
        Self { mesh, position, rotation }
    }
}

impl GameObject<f32> for Block {
    fn get_mesh(&self) -> Option<Box<&dyn Mesh<f32>>> {
        match &self.mesh {
            Some(mesh) => Some(Box::new(mesh)),
            None => None,
        }
    }
    fn get_position(&self) -> Vector3<f32> {
        self.position
    }
    fn set_position(&mut self, pos: Vector3<f32>) {
        self.position = pos;
    }
    fn get_rotation(&self) -> Quaternion<f32> {
        self.rotation
    }
    fn set_rotation(&mut self, rotation: Quaternion<f32>) {
        self.rotation = rotation;
    }
}

/// A scene that answers its hooks with prepared actions.
struct Script {
    camera: Camera<f32>,
    blocks: Vec<Block>,
    on_start: Vec<GameAction<f32>>,
    fail_start: bool,
    fail_update: bool,
    updates: u32,
}

impl Script {
    fn new(x: f32) -> Self {
        Self {
            camera: camera_at(x),
            blocks: vec![],
            on_start: vec![],
            fail_start: false,
            fail_update: false,
            updates: 0,
        }
    }
    fn starting_with(x: f32, on_start: Vec<GameAction<f32>>) -> Self {
        Self { on_start, ..Self::new(x) }
    }
}

impl Scene<f32> for Script {
    fn get_game_objects(&self) -> Vec<Box<&dyn GameObject<f32>>> {
        let mut result: Vec<Box<&dyn GameObject<f32>>> = vec![];
        for block in &self.blocks {
            result.push(Box::new(block))
        }
        result
    }
    fn get_current_camera(&self) -> &Camera<f32> {
        &self.camera
    }
    fn get_mut_camera(&mut self) -> &mut Camera<f32> {
        &mut self.camera
    }
    fn start(&mut self) -> Result<Vec<GameAction<f32>>, GameError> {
        if self.fail_start {
            return Err(GameError::Other("no level data".to_string()));
        }
        Ok(std::mem::take(&mut self.on_start))
    }
    fn update(&mut self, input: &Input<f32>) -> Result<Vec<GameAction<f32>>, GameError> {
        self.updates += 1;
        if self.fail_update {
            return Err(GameError::Other("the floor is missing".to_string()));
        }
        let mut actions = vec![];
        if input.exit.0 == 1.0 {
            actions.push(GameAction::Exit)
        }
        Ok(actions)
    }
}
impl MenuScene<f32> for Script {}
impl GameScene<f32> for Script {}
impl LoadingScene<f32> for Script {}

/// A scene whose start always asks for another scene like itself.
struct Restless;

impl Scene<f32> for Restless {
    fn get_game_objects(&self) -> Vec<Box<&dyn GameObject<f32>>> {
        vec![]
    }
    fn get_current_camera(&self) -> &Camera<f32> {
        unreachable!()
    }
    fn get_mut_camera(&mut self) -> &mut Camera<f32> {
        unreachable!()
    }
    fn start(&mut self) -> Result<Vec<GameAction<f32>>, GameError> {
        Ok(vec![GameAction::ChangeGameState(GameState::Menu(Box::new(Restless)))])
    }
    fn update(&mut self, _: &Input<f32>) -> Result<Vec<GameAction<f32>>, GameError> {
        Ok(vec![])
    }
}
impl MenuScene<f32> for Restless {}

fn same_camera(a: &Camera<f32>, b: &Camera<f32>) -> bool {
    let (ra, rb) = (a.get_rotation(), b.get_rotation());
    a.get_position() == b.get_position()
        && (ra.w, ra.x, ra.y, ra.z) == (rb.w, rb.x, rb.y, rb.z)
        && a.fov() == b.fov()
        && a.aspect_ratio() == b.aspect_ratio()
        && a.near() == b.near()
        && a.far() == b.far()
        && a.perspective() == b.perspective()
}

#[test]
fn a_new_game_is_loading_and_open() {
    let game = Game::init(&settings(), Camera::<f32>::default());
    assert_eq!(game.state.kind(), StateKind::Loading);
    assert!(!game.should_close());
    assert_eq!(game.window_size, (500, 500));
    assert!(same_camera(game.state.get_current_camera(), &Camera::default()));
    assert!(game.state.draw_calls().is_empty());
}

#[test]
fn scene_transition_from_loading_to_menu() {
    let mut game = Game::init(&settings(), Camera::<f32>::default());
    let scene = Script::new(4.0);
    let effects = act(&mut game, GameAction::ChangeGameState(GameState::Menu(Box::new(scene))))
        .unwrap();
    assert_eq!(effects, vec![Effect::SceneChanged]);
    let effects = frame(&mut game, &input()).unwrap();
    assert_eq!(effects, vec![]);
    assert_eq!(game.state.kind(), StateKind::Menu);
    assert!(same_camera(game.state.get_current_camera(), &camera_at(4.0)));
    assert!(!game.should_close());
}

#[test]
fn exit_is_deferred_to_the_next_loop_check() {
    let mut scene = Script::new(0.0);
    let mut pressed = input();
    pressed.handle_event(InputEvent::KeyPress(KEY_ESCAPE));
    assert_eq!(pressed.exit.0, 1.0);
    let actions = scene.update(&pressed).unwrap();
    assert_eq!(actions.len(), 1);
    assert!(matches!(actions[0], GameAction::Exit));

    let mut game = Game::new(GameState::Game(Box::new(Script::new(0.0))), (500, 500));
    let mut frames = 0;
    while !game.should_close() {
        assert!(frames < 1);
        let effects = frame(&mut game, &pressed).unwrap();
        assert_eq!(effects, vec![Effect::Close]);
        assert_eq!(game.state.kind(), StateKind::Game);
        frames += 1;
    }
    assert_eq!(frames, 1);
    assert!(game.should_close());
}

#[test]
fn no_exit_without_the_exit_key() {
    let mut game = Game::new(GameState::Game(Box::new(Script::new(0.0))), (500, 500));
    for _ in 0..3 {
        assert_eq!(frame(&mut game, &input()).unwrap(), vec![]);
    }
    assert!(!game.should_close());
}

#[test]
fn plain_actions_are_applied_in_order() {
    let mut game = Game::new(GameState::Menu(Box::new(Script::new(0.0))), (500, 500));
    let effects = act_all(&mut game, vec![
            GameAction::Resize(1, 2),
            GameAction::NoAction,
            GameAction::Exit,
            GameAction::Resize(3, 4),
        ])
        .unwrap();
    assert_eq!(
        effects,
        vec![Effect::Resize(1, 2), Effect::Close, Effect::Resize(3, 4)]
    );
    assert_eq!(game.window_size, (3, 4));
    assert!(game.should_close());
    assert_eq!(game.state.kind(), StateKind::Menu);
}

#[test]
fn single_actions() {
    let mut game = Game::new(GameState::Menu(Box::new(Script::new(0.0))), (500, 500));
    assert_eq!(act(&mut game, GameAction::NoAction).unwrap(), vec![]);
    assert!(!game.should_close());
    assert_eq!(game.window_size, (500, 500));
    assert_eq!(
        act(&mut game, GameAction::Resize(800, 600)).unwrap(),
        vec![Effect::Resize(800, 600)]
    );
    assert_eq!(game.window_size, (800, 600));
    assert!(!game.should_close());
    assert_eq!(act(&mut game, GameAction::Exit).unwrap(), vec![Effect::Close]);
    assert!(game.should_close());
    assert_eq!(act(&mut game, GameAction::NoAction).unwrap(), vec![]);
    assert!(game.should_close());
}

#[test]
fn step_hands_a_transition_back() {
    let mut game = Game::new(GameState::Menu(Box::new(Script::new(0.0))), (500, 500));
    let mut effects = vec![Effect::Close];
    let next = game.step(
        GameAction::ChangeGameState(GameState::Game(Box::new(Script::new(1.0)))),
        &mut effects,
    );
    assert_eq!(next.unwrap().kind(), StateKind::Game);
    assert_eq!(game.state.kind(), StateKind::Menu);
    assert_eq!(effects, vec![Effect::Close]);
    assert!(game.step(GameAction::Resize(7, 8), &mut effects).is_none());
    assert_eq!(effects, vec![Effect::Close, Effect::Resize(7, 8)]);
    assert_eq!(game.window_size, (7, 8));
}

#[test]
fn what_a_new_scene_asks_for_is_applied_at_once() {
    let mut game = Game::init(&settings(), Camera::<f32>::default());
    let scene = Script::starting_with(1.0, vec![GameAction::Resize(5, 5)]);
    let effects = act_all(&mut game, vec![
            GameAction::ChangeGameState(GameState::Game(Box::new(scene))),
            GameAction::Resize(9, 9),
        ])
        .unwrap();
    assert_eq!(
        effects,
        vec![Effect::SceneChanged, Effect::Resize(5, 5), Effect::Resize(9, 9)]
    );
    assert_eq!(game.window_size, (9, 9));
    assert_eq!(game.state.kind(), StateKind::Game);
}

#[test]
fn a_scene_may_start_another_scene() {
    let mut game = Game::init(&settings(), Camera::<f32>::default());
    let last = Script::starting_with(3.0, vec![GameAction::Exit]);
    let middle = Script::starting_with(
        2.0,
        vec![GameAction::ChangeGameState(GameState::Game(Box::new(last)))],
    );
    let effects = begin(&mut game, GameState::Menu(Box::new(middle))).unwrap();
    assert_eq!(
        effects,
        vec![Effect::SceneChanged, Effect::SceneChanged, Effect::Close]
    );
    assert_eq!(game.state.kind(), StateKind::Game);
    assert!(same_camera(game.state.get_current_camera(), &camera_at(3.0)));
    assert!(game.should_close());
}

#[test]
fn one_scene_change_leaves_the_state_handed_in() {
    let mut game = Game::init(&settings(), Camera::<f32>::default());
    let effects = begin(&mut game, GameState::Game(Box::new(Script::new(1.0)))).unwrap();
    assert_eq!(effects.iter().filter(|e| **e == Effect::SceneChanged).count(), 1);
    assert_eq!(game.state.kind(), StateKind::Game);
    let effects = frame(&mut game, &input()).unwrap();
    assert_eq!(effects.iter().filter(|e| **e == Effect::SceneChanged).count(), 0);
    assert_eq!(game.state.kind(), StateKind::Game);
}

#[test]
fn an_exit_before_a_scene_change_still_stops_the_game() {
    let mut game = Game::init(&settings(), Camera::<f32>::default());
    let effects = act_all(&mut game, vec![
            GameAction::Exit,
            GameAction::ChangeGameState(GameState::Menu(Box::new(Script::new(1.0)))),
            GameAction::Resize(2, 3),
        ])
        .unwrap();
    assert_eq!(
        effects,
        vec![Effect::Close, Effect::SceneChanged, Effect::Resize(2, 3)]
    );
    assert!(game.should_close());
    assert_eq!(game.state.kind(), StateKind::Menu);
    assert_eq!(game.window_size, (2, 3));
}

#[test]
fn a_scene_change_at_the_limit_zero_is_an_error() {
    let mut game = Game::new(GameState::Loading(Box::new(Script::new(0.0))), (500, 500));
    let mut effects = vec![];
    let r = game.apply_within(
        vec![
            GameAction::Resize(4, 5),
            GameAction::Exit,
            GameAction::ChangeGameState(GameState::Menu(Box::new(Script::new(1.0)))),
            GameAction::Resize(6, 7),
        ],
        &mut effects,
        0,
    );
    match r {
        Err(GameError::Other(m)) => assert_eq!(m, "too many scenes started one another"),
        Ok(()) => panic!("expected an error"),
    }
    assert_eq!(effects, vec![Effect::Resize(4, 5), Effect::Close]);
    assert_eq!(game.state.kind(), StateKind::Loading);
    assert_eq!(game.window_size, (4, 5));
    assert!(game.should_close());
}

#[test]
fn plain_actions_need_no_limit() {
    let mut game = Game::new(GameState::Loading(Box::new(Script::new(0.0))), (500, 500));
    let mut effects = vec![Effect::SceneChanged];
    let r = game.apply_within(vec![GameAction::Resize(4, 5), GameAction::NoAction], &mut effects, 0);
    assert!(r.is_ok());
    assert_eq!(effects, vec![Effect::SceneChanged, Effect::Resize(4, 5)]);
}

#[test]
fn the_limit_counts_scenes_that_start_one_another() {
    let last = Script::new(3.0);
    let middle = Script::starting_with(
        2.0,
        vec![GameAction::ChangeGameState(GameState::Game(Box::new(last)))],
    );
    let mut game = Game::new(GameState::Loading(Box::new(Script::new(0.0))), (500, 500));
    let mut effects = vec![];
    let r = game.apply_within(
        vec![GameAction::ChangeGameState(GameState::Menu(Box::new(middle)))],
        &mut effects,
        1,
    );
    assert!(r.is_err());
    assert_eq!(effects, vec![Effect::SceneChanged]);
    assert_eq!(game.state.kind(), StateKind::Menu);

    let last = Script::new(3.0);
    let middle = Script::starting_with(
        2.0,
        vec![GameAction::ChangeGameState(GameState::Game(Box::new(last)))],
    );
    let mut effects = vec![];
    let r = game.apply_within(
        vec![GameAction::ChangeGameState(GameState::Menu(Box::new(middle)))],
        &mut effects,
        2,
    );
    assert!(r.is_ok());
    assert_eq!(effects, vec![Effect::SceneChanged, Effect::SceneChanged]);
    assert_eq!(game.state.kind(), StateKind::Game);
}

#[test]
fn scenes_that_never_settle_are_an_error() {
    assert_eq!(MAX_TRANSITIONS, 1024);
    let mut game = Game::init(&settings(), Camera::<f32>::default());
    match begin(&mut game, GameState::Menu(Box::new(Restless))) {
        Err(GameError::Other(m)) => assert_eq!(m, "too many scenes started one another"),
        other => panic!("expected an error, got {:?}", other.map(|_| ())),
    }
}

#[test]
fn a_failing_start_stops_the_game() {
    let mut game = Game::init(&settings(), Camera::<f32>::default());
    let scene = Script { fail_start: true, ..Script::new(0.0) };
    match begin(&mut game, GameState::Menu(Box::new(scene))) {
        Err(GameError::Other(m)) => assert_eq!(m, "no level data"),
        other => panic!("expected an error, got {:?}", other.map(|_| ())),
    }
}

#[test]
fn a_failing_start_is_reported_after_the_scene_change() {
    let mut game = Game::init(&settings(), Camera::<f32>::default());
    let scene = Script { fail_start: true, ..Script::new(0.0) };
    let mut effects = vec![];
    let r = game.apply_actions(
        vec![
            GameAction::Resize(3, 4),
            GameAction::ChangeGameState(GameState::Menu(Box::new(scene))),
            GameAction::Exit,
        ],
        &mut effects,
    );
    match r {
        Err(GameError::Other(m)) => assert_eq!(m, "no level data"),
        Ok(()) => panic!("expected an error"),
    }
    assert_eq!(effects, vec![Effect::Resize(3, 4), Effect::SceneChanged]);
    assert_eq!(game.state.kind(), StateKind::Menu);
    assert_eq!(game.window_size, (3, 4));
    assert!(!game.should_close());
}

#[test]
fn a_failing_update_changes_nothing() {
    let scene = Script { fail_update: true, ..Script::new(0.0) };
    let mut game = Game::new(GameState::Game(Box::new(scene)), (500, 500));
    let mut effects = vec![Effect::Resize(1, 1)];
    match game.update(&input(), &mut effects) {
        Err(GameError::Other(m)) => assert_eq!(m, "the floor is missing"),
        Ok(()) => panic!("expected an error"),
    }
    assert_eq!(effects, vec![Effect::Resize(1, 1)]);
    assert_eq!(game.state.kind(), StateKind::Game);
    assert_eq!(game.window_size, (500, 500));
    assert!(!game.should_close());
}

#[test]
fn the_answer_of_a_hook() {
    let mut game = Game::new(GameState::Game(Box::new(Script::new(0.0))), (500, 500));
    let mut effects = vec![];
    match game.apply_answer(Err(GameError::Other("broken".to_string())), &mut effects, 8) {
        Err(GameError::Other(m)) => assert_eq!(m, "broken"),
        Ok(()) => panic!("expected an error"),
    }
    assert!(effects.is_empty());
    assert_eq!(game.window_size, (500, 500));
    assert!(!game.should_close());

    let answer = Ok(vec![GameAction::Resize(8, 9), GameAction::Exit]);
    assert!(game.apply_answer(answer, &mut effects, 0).is_ok());
    assert_eq!(effects, vec![Effect::Resize(8, 9), Effect::Close]);
    assert_eq!(game.window_size, (8, 9));
    assert!(game.should_close());
}

#[test]
fn actions_after_a_scene_change_are_applied_in_order() {
    let mut game = Game::init(&settings(), Camera::<f32>::default());
    let scene = Script::starting_with(1.0, vec![GameAction::Resize(5, 5), GameAction::NoAction]);
    let effects = act_all(
        &mut game,
        vec![
            GameAction::Resize(1, 1),
            GameAction::ChangeGameState(GameState::Game(Box::new(scene))),
            GameAction::Resize(9, 9),
            GameAction::NoAction,
            GameAction::Exit,
            GameAction::Resize(7, 7),
        ],
    )
    .unwrap();
    assert_eq!(
        effects,
        vec![
            Effect::Resize(1, 1),
            Effect::SceneChanged,
            Effect::Resize(5, 5),
            Effect::Resize(9, 9),
            Effect::Close,
            Effect::Resize(7, 7),
        ]
    );
    assert_eq!(game.window_size, (7, 7));
    assert!(game.should_close());
    assert_eq!(game.state.kind(), StateKind::Game);
}

#[test]
fn enter_starts_the_scene_once() {
    let mut game = Game::init(&settings(), Camera::<f32>::default());
    let scene = Script::starting_with(1.0, vec![GameAction::Exit, GameAction::Resize(1, 1)]);
    let asked = game.enter(GameState::Menu(Box::new(scene))).unwrap();
    assert_eq!(asked.len(), 2);
    assert_eq!(game.state.kind(), StateKind::Menu);
    assert!(!game.should_close());
    assert_eq!(game.window_size, (500, 500));
    assert_eq!(game.state.start().unwrap().len(), 0);
}

#[test]
fn default_key_bindings() {
    let s = InputSettings::default();
    assert_eq!(s.forward, (KEY_W, KEY_S));
    assert_eq!(s.right, (KEY_D, KEY_A));
    assert_eq!(s.exit, KEY_ESCAPE);
    assert_eq!((KEY_W, KEY_A, KEY_S, KEY_D, KEY_ESCAPE), (87, 65, 83, 68, 256));
}

#[test]
fn input_from_settings_is_at_rest() {
    let i = input();
    assert_eq!(i.forward, (0.0, KEY_W, KEY_S));
    assert_eq!(i.right, (0.0, KEY_D, KEY_A));
    assert_eq!(i.exit, (0.0, KEY_ESCAPE));
    assert_eq!(i.delta_time, 0.0);
}

#[test]
fn keys_drive_the_axes() {
    let mut i = input();
    assert!(matches!(i.handle_event(InputEvent::KeyPress(KEY_W)), GameAction::NoAction));
    assert_eq!(i.forward.0, 1.0);
    i.handle_event(InputEvent::KeyPress(KEY_S));
    assert_eq!(i.forward.0, -1.0);
    i.handle_event(InputEvent::KeyPress(KEY_D));
    assert_eq!(i.right.0, 1.0);
    i.handle_event(InputEvent::KeyPress(KEY_A));
    assert_eq!(i.right.0, -1.0);
    i.handle_event(InputEvent::KeyPress(KEY_ESCAPE));
    assert_eq!(i.exit.0, 1.0);
    i.handle_event(InputEvent::KeyRelease(KEY_W));
    assert_eq!(i.forward.0, 0.0);
    i.handle_event(InputEvent::KeyRelease(KEY_A));
    assert_eq!(i.right.0, 0.0);
    i.handle_event(InputEvent::KeyRelease(KEY_ESCAPE));
    assert_eq!(i.exit.0, 0.0);
    assert_eq!(i, input());
}

#[test]
fn unbound_keys_and_other_events_change_nothing() {
    let mut i = input();
    i.handle_event(InputEvent::KeyPress(32));
    i.handle_event(InputEvent::KeyRelease(32));
    i.handle_event(InputEvent::Other);
    assert_eq!(i, input());
}

#[test]
fn the_first_binding_of_a_key_wins() {
    let bindings = InputSettings { forward: (1, 2), right: (1, 3), exit: 2 };
    let mut i: Input<f32> = Input::from_settings(&bindings);
    i.handle_event(InputEvent::KeyPress(1));
    assert_eq!((i.forward.0, i.right.0, i.exit.0), (1.0, 0.0, 0.0));
    i.handle_event(InputEvent::KeyPress(2));
    assert_eq!((i.forward.0, i.right.0, i.exit.0), (-1.0, 0.0, 0.0));
    i.handle_event(InputEvent::KeyPress(3));
    assert_eq!((i.forward.0, i.right.0, i.exit.0), (-1.0, -1.0, 0.0));
    i.handle_event(InputEvent::KeyRelease(2));
    assert_eq!((i.forward.0, i.right.0, i.exit.0), (0.0, -1.0, 0.0));
}

#[test]
fn a_resize_event_becomes_a_resize_action() {
    let mut i = input();
    match i.handle_event(InputEvent::Size(640, 480)) {
        GameAction::Resize(w, h) => assert_eq!((w, h), (640, 480)),
        _ => panic!("expected a resize"),
    }
    assert_eq!(i, input());
}

#[test]
fn processing_stops_at_the_first_resize() {
    let mut i = input();
    let events = vec![
        InputEvent::KeyPress(KEY_W),
        InputEvent::Other,
        InputEvent::Size(640, 480),
        InputEvent::KeyPress(KEY_D),
        InputEvent::Size(1, 1),
    ];
    match i.process(&events) {
        Ok(GameAction::Resize(w, h)) => assert_eq!((w, h), (640, 480)),
        _ => panic!("expected a resize"),
    }
    assert_eq!(i.forward.0, 1.0);
    assert_eq!(i.right.0, 0.0);
}

#[test]
fn processing_without_a_resize_takes_every_event() {
    let mut i = input();
    let events = vec![
        InputEvent::KeyPress(KEY_W),
        InputEvent::KeyPress(KEY_A),
        InputEvent::KeyRelease(KEY_W),
    ];
    assert!(matches!(i.process(&events), Ok(GameAction::NoAction)));
    assert_eq!((i.forward.0, i.right.0, i.exit.0), (0.0, -1.0, 0.0));
    assert!(matches!(i.process(&vec![]), Ok(GameAction::NoAction)));
    assert_eq!((i.forward.0, i.right.0, i.exit.0), (0.0, -1.0, 0.0));
}

#[test]
fn integer_input() {
    let mut i: Input<i32> = Input::from_settings(&InputSettings::default());
    i.handle_event(InputEvent::KeyPress(KEY_S));
    assert_eq!(i.forward, (-1, KEY_W, KEY_S));
}

#[test]
fn empty_scene_asks_for_nothing() {
    let mut scene = EmptyScene::new(camera_at(2.0));
    assert!(scene.get_game_objects().is_empty());
    assert!(scene.draw_calls().is_empty());
    assert!(scene.start().unwrap().is_empty());
    assert!(scene.update(&input()).unwrap().is_empty());
    assert!(same_camera(scene.get_current_camera(), &camera_at(2.0)));
    scene.get_mut_camera().change_aspect_ratio(2.0);
    assert_eq!(scene.get_current_camera().aspect_ratio(), 2.0);
}

#[test]
fn one_draw_call_per_mesh_in_object_order() {
    let mut scene = Script::new(0.0);
    scene.blocks = vec![Block::new(1, true), Block::new(2, false), Block::new(3, true)];
    let calls = scene.draw_calls();
    assert_eq!(calls.len(), 2);
    assert_eq!(calls[0].vertex_array, 1);
    assert_eq!(calls[1].vertex_array, 3);
    assert_eq!(calls[1].element_buffer, 203);
    assert_eq!(calls[0].translation, Matrix::translation_mat(Vector3::new([1.0, 0.0, 0.0])));
    assert_eq!(collect_draw_calls(&scene.get_game_objects()).len(), 2);

    let game = Game::new(GameState::Game(Box::new(scene)), (1, 1));
    assert_eq!(game.state.draw_calls().len(), 2);
}

#[test]
fn game_objects_move_and_turn_by_offsets() {
    let mut block = Block::new(1, false);
    block.change_position(Vector3::new([1.0, 2.0, 3.0]));
    assert_eq!(block.get_position(), Vector3::new([2.0, 2.0, 3.0]));
    let turn = Quaternion { w: 0.0, x: 0.0, y: 0.0, z: 1.0 };
    block.rotate(turn);
    block.rotate(turn);
    let r = block.get_rotation();
    assert_eq!((r.w, r.x, r.y, r.z), (-1.0, 0.0, 0.0, 0.0));
}
