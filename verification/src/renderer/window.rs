//! Window settings and window errors.
use vstd::prelude::*;

verus! {

/// Why a window could not be opened.
#[derive(Debug, Clone, Copy, PartialEq, Eq, Structural)]
pub enum WindowError {
    InitError,
    CreateError,
}

/// How a window occupies the screen.
#[derive(Debug, Clone, Copy, PartialEq, Eq, Structural)]
pub enum WindowMode {
    Windowed,
    FullScreen,
}

} // verus!
