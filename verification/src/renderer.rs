//! The renderer's data: errors, window settings and resource handles.
pub mod buffers;
pub mod camera;
pub mod mesh;
pub mod shaders;
pub mod texture;
pub mod uniform;
pub mod uniforms;
pub mod window;

pub use camera::Camera;
pub use texture::Texture;
pub use window::{WindowError, WindowMode};

use vstd::prelude::*;

verus! {

/// What can go wrong while rendering is set up or a frame is drawn.
#[derive(Debug)]
pub enum RenderError {
    InitError(String),
    VAOError,
    VBOError,
    EBOError,
    ShaderError(String),
    UniformError(String),
    TextureError(String),
}

impl RenderError {
    /// Whether this is a shader error with the message `text`.
    pub open spec fn is_shader_error(self, text: Seq<char>) -> bool {
        self matches RenderError::ShaderError(msg) && msg@ == text
    }

    /// Whether this is a uniform error with the message `text`.
    pub open spec fn is_uniform_error(self, text: Seq<char>) -> bool {
        self matches RenderError::UniformError(msg) && msg@ == text
    }

    /// Whether this is a texture error with the message `text`.
    pub open spec fn is_texture_error(self, text: Seq<char>) -> bool {
        self matches RenderError::TextureError(msg) && msg@ == text
    }
}

} // verus!
