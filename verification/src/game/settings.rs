//! What the engine is started with.
use crate::renderer::window::WindowMode;
use vstd::prelude::*;

verus! {

/// A key of the keyboard, by the code that the windowing library gives it.
pub type Key = i32;

/// The code of the key `A`.
pub const KEY_A: i32 = 65;

/// The code of the key `D`.
pub const KEY_D: i32 = 68;

/// The code of the key `S`.
pub const KEY_S: i32 = 83;

/// The code of the key `W`.
pub const KEY_W: i32 = 87;

/// The code of the escape key.
pub const KEY_ESCAPE: i32 = 256;

/// The keys that drive the input axes: for each axis the key of the
/// positive and of the negative direction, and the key that asks to exit.
#[derive(Debug, Clone, Copy, PartialEq, Eq)]
pub struct InputSettings {
    pub forward: (Key, Key),
    pub right: (Key, Key),
    pub exit: Key,
}

impl Default for InputSettings {
    /// `W`/`S` move forward and back, `D`/`A` right and left, escape exits.
    fn default() -> (r: Self)
        ensures
            r == (InputSettings { forward: (KEY_W, KEY_S), right: (KEY_D, KEY_A), exit: KEY_ESCAPE }),
    {
        Self { forward: (KEY_W, KEY_S), right: (KEY_D, KEY_A), exit: KEY_ESCAPE }
    }
}

/// The settings of a game: its window and its key bindings.
#[derive(Debug, Clone, Copy)]
pub struct Settings {
    pub window_size: (u32, u32),
    pub window_mode: WindowMode,
    pub game_title: &'static str,
    pub input_settings: InputSettings,
}

} // verus!
