//! A small 3D engine core: fixed-size vector, matrix and quaternion algebra,
//! a camera model, and the scene/action protocol of a frame-stepped game loop.
//!
//! The numeric code is generic over its scalar type. Contracts are stated in
//! terms of the scalar's own operator specifications, so they apply to every
//! scalar whose operators obey them.
pub mod error;
pub mod game;
pub mod math;
pub mod renderer;

pub use error::Error;

use game::GameError;
use renderer::{RenderError, WindowError};
use vstd::prelude::*;
use vstd::std_specs::convert::FromSpecImpl;
use vstd::string::StringExecFns;

verus! {

/// Why the engine stopped.
#[derive(Debug)]
pub enum Crash {
    Unknown,
    RenderError(String),
    WindowError(String),
    GameError(String),
    InputError,
}

/// The text that a render error contributes to a crash report.
pub open spec fn render_error_text(e: RenderError) -> Seq<char> {
    match e {
        RenderError::InitError(msg) => "couldn't start the rendering process: "@ + msg@,
        RenderError::ShaderError(msg) => "shader error: "@ + msg@,
        RenderError::UniformError(msg) => "uniform error: "@ + msg@,
        RenderError::TextureError(msg) => "texture error: "@ + msg@,
        RenderError::VBOError => "vbo error"@,
        RenderError::VAOError => "vao error"@,
        RenderError::EBOError => "ebo error"@,
    }
}

/// The text that a window error contributes to a crash report.
pub open spec fn window_error_text(e: WindowError) -> Seq<char> {
    match e {
        WindowError::InitError => "couldn't initialize window"@,
        WindowError::CreateError => "couldn't create window"@,
    }
}

/// The text that a game error contributes to a crash report.
pub open spec fn game_error_text(e: GameError) -> Seq<char> {
    match e {
        GameError::Other(msg) => "custom game error: "@ + msg@,
    }
}

/// A crash as plain values: its kind, with the text that it carries.
pub enum CrashView {
    Unknown,
    RenderError(Seq<char>),
    WindowError(Seq<char>),
    GameError(Seq<char>),
    InputError,
}

impl View for Crash {
    type V = CrashView;

    open spec fn view(&self) -> CrashView {
        match self {
            Crash::Unknown => CrashView::Unknown,
            Crash::RenderError(msg) => CrashView::RenderError(msg@),
            Crash::WindowError(msg) => CrashView::WindowError(msg@),
            Crash::GameError(msg) => CrashView::GameError(msg@),
            Crash::InputError => CrashView::InputError,
        }
    }
}

impl Crash {

    /// The report shown to the user.
    pub open spec fn message_spec(self) -> Seq<char> {
        match self {
            Crash::Unknown => "encountered a unknown error!"@,
            Crash::RenderError(msg) => "Renderer crashed: "@ + msg@ + "!"@,
            Crash::WindowError(msg) => "Renderer crashed: "@ + msg@ + "!"@,
            Crash::GameError(msg) => "Game logic crashed: "@ + msg@,
            Crash::InputError => "encountered a problem while processing input"@,
        }
    }

    /// The report shown to the user when the engine stops with this crash.
    pub fn message(&self) -> (r: String)
        ensures
            r@ == self.message_spec(),
    {
        match self {
            Crash::Unknown => String::from_str("encountered a unknown error!"),
            Crash::RenderError(msg) => String::from_str("Renderer crashed: ").concat(
                msg.as_str(),
            ).concat("!"),
            Crash::WindowError(msg) => String::from_str("Renderer crashed: ").concat(
                msg.as_str(),
            ).concat("!"),
            Crash::GameError(msg) => String::from_str("Game logic crashed: ").concat(msg.as_str()),
            Crash::InputError => String::from_str("encountered a problem while processing input"),
        }
    }
}

impl FromSpecImpl<RenderError> for Crash {
    open spec fn obeys_from_spec() -> bool {
        false
    }

    open spec fn from_spec(value: RenderError) -> Self {
        Crash::Unknown
    }
}

impl From<RenderError> for Crash {
    /// A render error becomes a renderer crash that says which error it was.
    fn from(value: RenderError) -> (r: Self)
        ensures
            r@ == CrashView::RenderError(render_error_text(value)),
    {
        Crash::RenderError(
            match value {
                RenderError::InitError(msg) => String::from_str(
                    "couldn't start the rendering process: ",
                ).concat(msg.as_str()),
                RenderError::ShaderError(msg) => String::from_str("shader error: ").concat(
                    msg.as_str(),
                ),
                RenderError::UniformError(msg) => String::from_str("uniform error: ").concat(
                    msg.as_str(),
                ),
                RenderError::TextureError(msg) => String::from_str("texture error: ").concat(
                    msg.as_str(),
                ),
                RenderError::VBOError => String::from_str("vbo error"),
                RenderError::VAOError => String::from_str("vao error"),
                RenderError::EBOError => String::from_str("ebo error"),
            },
        )
    }
}

impl FromSpecImpl<WindowError> for Crash {
    open spec fn obeys_from_spec() -> bool {
        false
    }

    open spec fn from_spec(value: WindowError) -> Self {
        Crash::Unknown
    }
}

impl From<WindowError> for Crash {
    /// A window error becomes a window crash that says which error it was.
    fn from(value: WindowError) -> (r: Self)
        ensures
            r@ == CrashView::WindowError(window_error_text(value)),
    {
        Crash::WindowError(
            match value {
                WindowError::InitError => String::from_str("couldn't initialize window"),
                WindowError::CreateError => String::from_str("couldn't create window"),
            },
        )
    }
}

impl FromSpecImpl<GameError> for Crash {
    open spec fn obeys_from_spec() -> bool {
        false
    }

    open spec fn from_spec(value: GameError) -> Self {
        Crash::Unknown
    }
}

impl From<GameError> for Crash {
    /// A game error becomes a game crash that carries its message.
    fn from(value: GameError) -> (r: Self)
        ensures
            r@ == CrashView::GameError(game_error_text(value)),
    {
        Crash::GameError(
            match value {
                GameError::Other(msg) => String::from_str("custom game error: ").concat(
                    msg.as_str(),
                ),
            },
        )
    }
}

} // verus!
