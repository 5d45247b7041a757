//! Shader and shader-program handles, and the checks made while they are built.
use crate::renderer::uniform::{uniform_missing_text, Uniform};
use crate::renderer::RenderError;
use vstd::prelude::*;
use vstd::string::StringExecFns;

verus! {

/// The stage of the pipeline that a shader runs in.
#[derive(Clone, Copy, PartialEq, Eq, Structural, Debug)]
pub enum ShaderType {
    Vertex,
    Fragment,
}

impl ShaderType {
    /// The stage's name in capitals.
    pub open spec fn name_spec(self) -> Seq<char> {
        match self {
            ShaderType::Vertex => "VERTEX"@,
            ShaderType::Fragment => "FRAGMENT"@,
        }
    }

    /// The stage's name in capitals.
    pub fn to_string(&self) -> (r: String)
        ensures
            r@ == self.name_spec(),
    {
        match self {
            ShaderType::Vertex => String::from_str("VERTEX"),
            ShaderType::Fragment => String::from_str("FRAGMENT"),
        }
    }
}

/// A compiled shader, by its handle.
#[derive(Debug, PartialEq, Eq)]
pub struct Shader(pub u32);

/// The error for a shader that could not be created.
pub open spec fn create_failed_text(shader_type: ShaderType) -> Seq<char> {
    "Couldnt create "@ + shader_type.name_spec() + " shader"@
}

/// The error for a shader that did not compile.
pub open spec fn compile_failed_text(log: Seq<char>) -> Seq<char> {
    "Shader compile error: "@ + log
}

/// The error for a program that did not link.
pub open spec fn link_failed_text(log: Seq<char>) -> Seq<char> {
    "Shader program link error: "@ + log
}

/// The error for a shader source that could not be read.
pub open spec fn unreadable_text(path: Seq<char>) -> Seq<char> {
    "couldn't read: "@ + path
}

impl Shader {
    /// Accepts the handle that the graphics API returned for a new shader of
    /// the given stage. The handle zero means that no shader was created.
    pub fn from_handle(handle: u32, shader_type: ShaderType) -> (r: Result<Self, RenderError>)
        ensures
            handle != 0 ==> r == Ok::<Self, RenderError>(Shader(handle)),
            handle == 0 ==> r is Err && r->Err_0.is_shader_error(create_failed_text(shader_type)),
    {
        if handle == 0 {
            return Err(
                RenderError::ShaderError(
                    String::from_str("Couldnt create ").concat(
                        shader_type.to_string().as_str(),
                    ).concat(" shader"),
                ),
            );
        }
        Ok(Shader(handle))
    }

    /// Checks the compile status that the graphics API reported for this
    /// shader: zero means failure, and `log` then says why.
    pub fn compiled(self, status: i32, log: &str) -> (r: Result<Self, RenderError>)
        ensures
            status != 0 ==> r == Ok::<Self, RenderError>(self),
            status == 0 ==> r is Err && r->Err_0.is_shader_error(compile_failed_text(log@)),
    {
        if status == 0 {
            return Err(
                RenderError::ShaderError(String::from_str("Shader compile error: ").concat(log)),
            );
        }
        Ok(self)
    }

    /// The error for a shader whose source file at `path` could not be read.
    pub fn unreadable(path: &str) -> (r: RenderError)
        ensures
            r.is_shader_error(unreadable_text(path@)),
    {
        RenderError::ShaderError(String::from_str("couldn't read: ").concat(path))
    }

    /// The shader's handle.
    pub fn handle(&self) -> (r: u32)
        ensures
            r == self.0,
    {
        self.0
    }
}

/// The length of an information log as a buffer length. A negative length is
/// reported as a shader error that names the step `stage`.
pub fn info_log_len(log_len: i32, stage: &str) -> (r: Result<usize, RenderError>)
    ensures
        log_len >= 0 ==> r == Ok::<usize, RenderError>(log_len as usize),
        log_len < 0 ==> r is Err && r->Err_0.is_shader_error(
            "try_into() on "@ + stage@ + " failed (wtf how?)"@,
        ),
{
    if log_len < 0 {
        return Err(
            RenderError::ShaderError(
                String::from_str("try_into() on ").concat(stage).concat(" failed (wtf how?)"),
            ),
        );
    }
    Ok(log_len as usize)
}

/// A linked shader program with the uniforms that every draw call sets.
#[derive(Debug)]
pub struct ShaderProgram {
    pub program: u32,
    pub vertex_shader: Shader,
    pub frag_shader: Shader,
    pub perspective: Uniform,
    pub view: Uniform,
    pub model_transform: Uniform,
    pub model_rotation: Uniform,
    pub texture0: Uniform,
    pub texture1: Uniform,
}

/// The names of a program's uniforms, in the order in which they are looked
/// up: perspective, view, model transform, model rotation, and two textures.
pub open spec fn uniform_names_spec() -> Seq<Seq<char>> {
    seq![
        "perspective\0"@,
        "view\0"@,
        "model_trans\0"@,
        "model_rot\0"@,
        "texture1\0"@,
        "texture2\0"@,
    ]
}

/// The position of the first uniform that was not found (location -1), if any.
pub open spec fn first_missing(locations: Seq<i32>, n: int) -> Option<int>
    decreases n,
{
    if n <= 0 {
        None
    } else {
        match first_missing(locations, n - 1) {
            Some(i) => Some(i),
            None => if locations[n - 1] == -1 {
                Some(n - 1)
            } else {
                None
            },
        }
    }
}

impl ShaderProgram {
    /// The names of the program's uniforms, in lookup order.
    pub fn uniform_names() -> (r: [&'static str; 6])
        ensures
            r@.len() == 6,
            forall|i: int| 0 <= i < 6 ==> (#[trigger] r@[i])@ == uniform_names_spec()[i],
    {
        ["perspective\0", "view\0", "model_trans\0", "model_rot\0", "texture1\0", "texture2\0"]
    }

    /// Checks the link status that the graphics API reported for a program:
    /// zero means failure, and `log` then says why.
    pub fn check_linked(status: i32, log: &str) -> (r: Result<(), RenderError>)
        ensures
            status != 0 ==> r is Ok,
            status == 0 ==> r is Err && r->Err_0.is_shader_error(link_failed_text(log@)),
    {
        if status == 0 {
            return Err(
                RenderError::ShaderError(
                    String::from_str("Shader program link error: ").concat(log),
                ),
            );
        }
        Ok(())
    }

    /// Assembles a linked program from its handle, its two shaders and the
    /// locations that the graphics API returned for the six uniform names, in
    /// lookup order. The first uniform that was not found is the error.
    pub fn assemble(
        program: u32,
        vertex_shader: Shader,
        frag_shader: Shader,
        locations: [i32; 6],
    ) -> (r: Result<Self, RenderError>)
        ensures
            match first_missing(locations@, 6) {
                Some(i) => 0 <= i < 6 && r is Err && r->Err_0.is_uniform_error(
                    uniform_missing_text(uniform_names_spec()[i]),
                ),
                None => r is Ok && r->Ok_0.program == program && r->Ok_0.locations()
                    == locations@ && r->Ok_0.shaders() == (vertex_shader, frag_shader),
            },
    {
        let names = Self::uniform_names();
        reveal_with_fuel(first_missing, 7);
        let perspective = match Uniform::from_name(names[0], locations[0]) {
            Ok(u) => u,
            Err(e) => {
                return Err(e);
            },
        };
        let view = match Uniform::from_name(names[1], locations[1]) {
            Ok(u) => u,
            Err(e) => {
                return Err(e);
            },
        };
        let model_transform = match Uniform::from_name(names[2], locations[2]) {
            Ok(u) => u,
            Err(e) => {
                return Err(e);
            },
        };
        let model_rotation = match Uniform::from_name(names[3], locations[3]) {
            Ok(u) => u,
            Err(e) => {
                return Err(e);
            },
        };
        let texture0 = match Uniform::from_name(names[4], locations[4]) {
            Ok(u) => u,
            Err(e) => {
                return Err(e);
            },
        };
        let texture1 = match Uniform::from_name(names[5], locations[5]) {
            Ok(u) => u,
            Err(e) => {
                return Err(e);
            },
        };
        let r = Self {
            program,
            vertex_shader,
            frag_shader,
            perspective,
            view,
            model_transform,
            model_rotation,
            texture0,
            texture1,
        };
        assert(r.locations() =~= locations@);
        Ok(r)
    }

    /// The locations of the six uniforms, in lookup order.
    pub open spec fn locations(self) -> Seq<i32> {
        seq![
            self.perspective.0,
            self.view.0,
            self.model_transform.0,
            self.model_rotation.0,
            self.texture0.0,
            self.texture1.0,
        ]
    }

    /// The vertex and fragment shaders that the program was linked from.
    pub open spec fn shaders(self) -> (Shader, Shader) {
        (self.vertex_shader, self.frag_shader)
    }
}

} // verus!
