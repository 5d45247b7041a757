//! A uniform of a shader program, by its location.
use crate::renderer::RenderError;
use vstd::prelude::*;
use vstd::string::StringExecFns;

verus! {

/// A named input slot of a shader program, by its location.
#[derive(Debug, Clone, Copy, PartialEq, Eq, Structural)]
pub struct Uniform(pub i32);

/// The error for a uniform that the program does not have.
pub open spec fn uniform_missing_text(name: Seq<char>) -> Seq<char> {
    "couldn't find uniform: '"@ + name + "' (maybe you forgot null byte)"@
}

impl Uniform {
    /// Accepts the location that the graphics API returned for the uniform
    /// called `name`. The location -1 means that there is no such uniform.
    pub fn from_name(name: &str, location: i32) -> (r: Result<Self, RenderError>)
        ensures
            location != -1 ==> r == Ok::<Self, RenderError>(Uniform(location)),
            location == -1 ==> r is Err && r->Err_0.is_uniform_error(uniform_missing_text(name@)),
    {
        if location == -1 {
            return Err(
                RenderError::UniformError(
                    String::from_str("couldn't find uniform: '").concat(name).concat(
                        "' (maybe you forgot null byte)",
                    ),
                ),
            );
        }
        Ok(Self(location))
    }

    /// The uniform's location.
    pub fn location(&self) -> (r: i32)
        ensures
            r == self.0,
    {
        self.0
    }
}

} // verus!
