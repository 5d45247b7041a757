//! Errors of the graphics resource wrappers.
use vstd::prelude::*;

verus! {

/// What can go wrong while a graphics resource is created.
#[derive(Debug, Clone)]
pub enum Error {
    VAOGenError(&'static str),
    VBOGenError(&'static str),
    EBOGenError(&'static str),
    ShaderError(String),
    UniformError(&'static str),
    TextureError(String),
}

} // verus!
