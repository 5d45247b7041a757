//! The scene and action protocol of the game loop.
pub mod controls;
pub mod driver;
pub mod input;
pub mod object;
pub mod player;
pub mod scene;
pub mod settings;

pub use driver::{Game, Outcome, MAX_TRANSITIONS};
pub use input::{Input, InputEvent};
pub use object::GameObject;
pub use scene::{EmptyScene, GameScene, LoadingScene, MenuScene, Scene};
pub use settings::{InputSettings, Settings};

use crate::math::scalar::Scalar;
use crate::renderer::camera::Camera;
use crate::renderer::mesh::{call_views, DrawCall, DrawCallView};
use vstd::prelude::*;

verus! {

/// An error raised by game logic.
#[derive(Debug)]
pub enum GameError {
    Other(String),
}

/// The three kinds of game state.
#[derive(Debug, Clone, Copy, PartialEq, Eq, Structural)]
pub enum StateKind {
    Loading,
    Menu,
    Game,
}

/// The active scene, by the kind of state that the game is in. Exactly one
/// scene is active at a time.
#[verifier::reject_recursive_types(T)]
pub enum GameState<T: Scalar> {
    Loading(Box<dyn LoadingScene<T>>),
    Menu(Box<dyn MenuScene<T>>),
    Game(Box<dyn GameScene<T>>),
}

/// What a scene, or the window, asks the game loop to do.
#[verifier::reject_recursive_types(T)]
pub enum GameAction<T: Scalar> {
    /// Nothing.
    NoAction,
    /// Stop the loop at its next check.
    Exit,
    /// Replace the active scene.
    ChangeGameState(GameState<T>),
    /// Adopt a new window size.
    Resize(u32, u32),
}

/// What the owner of the window and of the renderer has to do after
/// actions were applied.
#[derive(Debug, Clone, Copy, PartialEq, Eq, Structural)]
pub enum Effect {
    /// Ask the window to close.
    Close,
    /// Resize the viewport, and give the active camera the new aspect ratio.
    Resize(u32, u32),
    /// Another scene became the active one.
    SceneChanged,
}

impl<T: Scalar> GameState<T> {
    /// The kind of the state.
    pub open spec fn kind_spec(self) -> StateKind {
        match self {
            GameState::Loading(_) => StateKind::Loading,
            GameState::Menu(_) => StateKind::Menu,
            GameState::Game(_) => StateKind::Game,
        }
    }

    /// The kind of the state.
    pub fn kind(&self) -> (r: StateKind)
        ensures
            r == self.kind_spec(),
    {
        match self {
            GameState::Loading(_) => StateKind::Loading,
            GameState::Menu(_) => StateKind::Menu,
            GameState::Game(_) => StateKind::Game,
        }
    }

    /// Whether the active scene is modeled by its specification functions.
    pub open spec fn modeled(self) -> bool {
        match self {
            GameState::Loading(scene) => scene.modeled(),
            GameState::Menu(scene) => scene.modeled(),
            GameState::Game(scene) => scene.modeled(),
        }
    }

    /// The camera of the active scene.
    pub open spec fn camera_spec(self) -> Camera<T> {
        match self {
            GameState::Loading(scene) => scene.camera_spec(),
            GameState::Menu(scene) => scene.camera_spec(),
            GameState::Game(scene) => scene.camera_spec(),
        }
    }

    /// The draw calls of the active scene.
    pub open spec fn draw_calls_spec(self) -> Seq<DrawCallView<T>> {
        match self {
            GameState::Loading(scene) => scene.draw_calls_spec(),
            GameState::Menu(scene) => scene.draw_calls_spec(),
            GameState::Game(scene) => scene.draw_calls_spec(),
        }
    }

    /// The camera of the active scene.
    pub fn get_current_camera(&self) -> (r: &Camera<T>)
        ensures
            self.modeled() ==> *r == self.camera_spec(),
    {
        match self {
            GameState::Loading(scene) => scene.get_current_camera(),
            GameState::Menu(scene) => scene.get_current_camera(),
            GameState::Game(scene) => scene.get_current_camera(),
        }
    }

    /// The camera of the active scene, to change it. The scene stays the
    /// active one, and so do its draw calls.
    pub fn get_mut_camera(&mut self) -> (r: &mut Camera<T>)
        ensures
            final(self).kind_spec() == old(self).kind_spec(),
            old(self).modeled() ==> {
                &&& *r == old(self).camera_spec()
                &&& final(self).modeled()
                &&& final(self).camera_spec() == *final(r)
                &&& final(self).draw_calls_spec() == old(self).draw_calls_spec()
            },
    {
        match self {
            GameState::Loading(scene) => scene.get_mut_camera(),
            GameState::Menu(scene) => scene.get_mut_camera(),
            GameState::Game(scene) => scene.get_mut_camera(),
        }
    }

    /// The draw calls of the active scene: one for the mesh of each object
    /// that has one, in the order of the objects.
    pub fn draw_calls(&self) -> (r: Vec<DrawCall<T>>)
        ensures
            self.modeled() ==> call_views(r@) == self.draw_calls_spec(),
    {
        match self {
            GameState::Loading(scene) => scene.draw_calls(),
            GameState::Menu(scene) => scene.draw_calls(),
            GameState::Game(scene) => scene.draw_calls(),
        }
    }

    /// Runs the start hook of the active scene. The scene stays the active one.
    pub fn start(&mut self) -> (r: Result<Vec<GameAction<T>>, GameError>)
        ensures
            final(self).kind_spec() == old(self).kind_spec(),
    {
        match self {
            GameState::Loading(scene) => scene.start(),
            GameState::Menu(scene) => scene.start(),
            GameState::Game(scene) => scene.start(),
        }
    }

    /// Runs the update hook of the active scene. The scene stays the active one.
    pub fn update(&mut self, input: &Input<T>) -> (r: Result<Vec<GameAction<T>>, GameError>)
        ensures
            final(self).kind_spec() == old(self).kind_spec(),
    {
        match self {
            GameState::Loading(scene) => scene.update(input),
            GameState::Menu(scene) => scene.update(input),
            GameState::Game(scene) => scene.update(input),
        }
    }
}

} // verus!
