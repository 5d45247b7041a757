use engine::error::Error;
use engine::math::{Matrix, Quaternion, Vector, Vector3, Vector4};
use engine::renderer::buffers::{ElementBufferObject, VertexArrayObject, VertexBufferObject};
use engine::renderer::mesh::{cube_data, rectangle_data, triangle_data, Mesh, StaticMesh, Vertex};
use engine::renderer::shaders::{info_log_len, Shader, ShaderProgram, ShaderType};
use engine::renderer::uniform::Uniform;
use engine::renderer::uniforms::{AnyUniform, UniformF, UniformI, UniformType};
use engine::renderer::{RenderError, Texture, WindowError};
use engine::game::GameError;
use engine::Crash;

fn shader_message(e: RenderError) -> String {
    match e {
        RenderError::ShaderError(m) => m,
        other => panic!("not a shader error: {:?}", other),
    }
}

#[test]
fn shader_type_names() {
    assert_eq!(ShaderType::Vertex.to_string(), "VERTEX");
    assert_eq!(ShaderType::Fragment.to_string(), "FRAGMENT");
}

#[test]
fn shader_handle_zero_is_an_error() {
    assert_eq!(Shader::from_handle(7, ShaderType::Vertex).unwrap(), Shader(7));
    assert_eq!(Shader::from_handle(7, ShaderType::Vertex).unwrap().handle(), 7);
    assert_eq!(
        shader_message(Shader::from_handle(0, ShaderType::Vertex).unwrap_err()),
        "Couldnt create VERTEX shader"
    );
    assert_eq!(
        shader_message(Shader::from_handle(0, ShaderType::Fragment).unwrap_err()),
        "Couldnt create FRAGMENT shader"
    );
}

#[test]
fn compile_status_zero_is_an_error() {
    assert_eq!(Shader(3).compiled(1, "ignored").unwrap(), Shader(3));
    assert_eq!(
        shader_message(Shader(3).compiled(0, "0:1 syntax error").unwrap_err()),
        "Shader compile error: 0:1 syntax error"
    );
}

#[test]
fn unreadable_shader_source() {
    assert_eq!(
        shader_message(Shader::unreadable("src/shaders/shader.vert")),
        "couldn't read: src/shaders/shader.vert"
    );
}

#[test]
fn negative_log_length_is_an_error() {
    assert_eq!(info_log_len(12, "shader compile").unwrap(), 12);
    assert_eq!(info_log_len(0, "shader compile").unwrap(), 0);
    assert_eq!(
        shader_message(info_log_len(-1, "shader compile").unwrap_err()),
        "try_into() on shader compile failed (wtf how?)"
    );
    assert_eq!(
        shader_message(info_log_len(-5, "shader program link").unwrap_err()),
        "try_into() on shader program link failed (wtf how?)"
    );
}

#[test]
fn link_status_zero_is_an_error() {
    assert!(ShaderProgram::check_linked(1, "").is_ok());
    assert_eq!(
        shader_message(ShaderProgram::check_linked(0, "undefined main").unwrap_err()),
        "Shader program link error: undefined main"
    );
}

#[test]
fn program_uniform_names() {
    assert_eq!(
        ShaderProgram::uniform_names(),
        ["perspective\0", "view\0", "model_trans\0", "model_rot\0", "texture1\0", "texture2\0"]
    );
}

#[test]
fn program_is_assembled_from_its_uniform_locations() {
    let p = ShaderProgram::assemble(9, Shader(1), Shader(2), [10, 11, 12, 13, 14, 15]).unwrap();
    assert_eq!(p.program, 9);
    assert_eq!(p.vertex_shader, Shader(1));
    assert_eq!(p.frag_shader, Shader(2));
    assert_eq!(p.perspective, Uniform(10));
    assert_eq!(p.view, Uniform(11));
    assert_eq!(p.model_transform, Uniform(12));
    assert_eq!(p.model_rotation, Uniform(13));
    assert_eq!(p.texture0, Uniform(14));
    assert_eq!(p.texture1, Uniform(15));
}

#[test]
fn first_missing_uniform_is_the_error() {
    let e = ShaderProgram::assemble(9, Shader(1), Shader(2), [10, 11, -1, 13, -1, 15]).unwrap_err();
    match e {
        RenderError::UniformError(m) => assert_eq!(
            m,
            "couldn't find uniform: 'model_trans\0' (maybe you forgot null byte)"
        ),
        other => panic!("not a uniform error: {:?}", other),
    }
}

#[test]
fn uniform_location_minus_one_is_an_error() {
    assert_eq!(Uniform::from_name("view\0", 4).unwrap(), Uniform(4));
    assert_eq!(Uniform::from_name("view\0", 0).unwrap().location(), 0);
    match Uniform::from_name("view\0", -1).unwrap_err() {
        RenderError::UniformError(m) => {
            assert_eq!(m, "couldn't find uniform: 'view\0' (maybe you forgot null byte)")
        }
        other => panic!("not a uniform error: {:?}", other),
    }
}

#[test]
fn typed_uniforms() {
    assert_eq!(UniformF::<3>::new(5).location, 5);
    assert_eq!(UniformI::<1>::new(6).location, 6);
    assert_eq!(UniformF::<2>::from_name("color\0", 2).unwrap(), UniformF::<2>::new(2));
    assert_eq!(UniformI::<4>::from_name("ids\0", 3).unwrap(), UniformI::<4>::new(3));
    match UniformF::<2>::from_name("color\0", -1).unwrap_err() {
        Error::UniformError(name) => assert_eq!(name, "color\0"),
        other => panic!("not a uniform error: {:?}", other),
    }
    match UniformI::<2>::from_name("ids\0", -1).unwrap_err() {
        Error::UniformError(name) => assert_eq!(name, "ids\0"),
        other => panic!("not a uniform error: {:?}", other),
    }
}

#[test]
fn any_uniform_has_the_type_asked_for() {
    let types = [
        UniformType::F1,
        UniformType::F2,
        UniformType::F3,
        UniformType::F4,
        UniformType::I1,
        UniformType::I2,
        UniformType::I3,
        UniformType::I4,
    ];
    for t in types {
        let u = AnyUniform::from_name(t, "x\0", 8).unwrap();
        assert_eq!(u.uniform_type(), t);
        assert_eq!(u.location(), 8);
    }
    assert_eq!(
        AnyUniform::from_name(UniformType::F3, "x\0", 1).unwrap(),
        AnyUniform::F3(UniformF::new(1))
    );
    assert_eq!(
        AnyUniform::from_name(UniformType::I2, "x\0", 1).unwrap(),
        AnyUniform::I2(UniformI::new(1))
    );
}

#[test]
fn buffer_handle_zero_is_an_error() {
    assert_eq!(VertexArrayObject::from_handle(1).unwrap(), VertexArrayObject(1));
    assert_eq!(VertexBufferObject::from_handle(2).unwrap(), VertexBufferObject(2));
    assert_eq!(ElementBufferObject::from_handle(3).unwrap(), ElementBufferObject(3));
    match VertexArrayObject::from_handle(0).unwrap_err() {
        Error::VAOGenError(m) => assert_eq!(m, "cannot create vao object"),
        other => panic!("wrong error: {:?}", other),
    }
    match VertexBufferObject::from_handle(0).unwrap_err() {
        Error::VBOGenError(m) => assert_eq!(m, "cannot create vbo"),
        other => panic!("wrong error: {:?}", other),
    }
    match ElementBufferObject::from_handle(0).unwrap_err() {
        Error::EBOGenError(m) => assert_eq!(m, "cannot create ebo"),
        other => panic!("wrong error: {:?}", other),
    }
}

#[test]
fn element_buffer_byte_length() {
    assert_eq!(ElementBufferObject::byte_len(0), Some(0));
    assert_eq!(ElementBufferObject::byte_len(36), Some(144));
    assert_eq!(ElementBufferObject::byte_len(usize::MAX / 4), Some(usize::MAX / 4 * 4));
    assert_eq!(ElementBufferObject::byte_len(usize::MAX / 4 + 1), None);
}

#[test]
fn texture_keeps_its_handle_and_size() {
    let t = Texture::new(4, 640, 480);
    assert_eq!((t.texture, t.width, t.height), (4, 640, 480));
}

#[test]
fn vertex_from_vectors() {
    let v = Vertex::from_vectors(
        Vector3::new([1.0f32, 2.0, 3.0]),
        Vector4::new([0.1, 0.2, 0.3, 0.4]),
        Vector::new([0.5, 0.75]),
    );
    assert_eq!(v.position, [1.0, 2.0, 3.0]);
    assert_eq!(v.color, [0.1, 0.2, 0.3, 0.4]);
    assert_eq!(v.uv, [0.5, 0.75]);
}

#[test]
fn triangle_vertices() {
    let color = Vector4::new([1.0f32, 0.0, 0.0, 1.0]);
    let d = triangle_data(2.0f32, 4.0, color);
    assert_eq!(d.indices, vec![0, 1, 2]);
    assert_eq!(
        d.vertices,
        vec![
            Vertex { position: [-1.0, -2.0, 0.0], color: color.0, uv: [-1.0, -1.0] },
            Vertex { position: [0.0, 2.0, 0.0], color: color.0, uv: [0.0, 1.0] },
            Vertex { position: [1.0, -2.0, 0.0], color: color.0, uv: [1.0, -1.0] },
        ]
    );
}

#[test]
fn rectangle_vertices() {
    let color = Vector4::new([1, 1, 1, 1]);
    let d = rectangle_data(2, 3, color);
    assert_eq!(d.indices, vec![1, 0, 2, 1, 2, 3]);
    assert_eq!(
        d.vertices,
        vec![
            Vertex { position: [2, 3, 0], color: color.0, uv: [1, 1] },
            Vertex { position: [-2, 3, 0], color: color.0, uv: [0, 1] },
            Vertex { position: [2, -3, 0], color: color.0, uv: [1, 0] },
            Vertex { position: [-2, -3, 0], color: color.0, uv: [0, 0] },
        ]
    );
}

#[test]
fn cube_vertices() {
    let color = Vector4::new([1.0f32, 1.0, 1.0, 1.0]);
    let d = cube_data(0.5f32, 1.0, 2.0, color);
    assert_eq!(d.vertices.len(), 36);
    assert_eq!(d.indices, (0..36).collect::<Vec<i32>>());
    assert_eq!(
        d.vertices[0],
        Vertex { position: [-0.5, -1.0, -2.0], color: color.0, uv: [0.0, 0.0] }
    );
    assert_eq!(
        d.vertices[8],
        Vertex { position: [0.5, 1.0, 2.0], color: color.0, uv: [1.0, 1.0] }
    );
    assert_eq!(
        d.vertices[13],
        Vertex { position: [-0.5, 1.0, -2.0], color: color.0, uv: [1.0, 1.0] }
    );
    assert_eq!(
        d.vertices[35],
        Vertex { position: [-0.5, 1.0, -2.0], color: color.0, uv: [0.0, 1.0] }
    );
    let fixed = [(2, -2.0), (2, 2.0), (0, -0.5), (0, 0.5), (1, -1.0), (1, 1.0)];
    for (face, (axis, value)) in fixed.iter().enumerate() {
        for k in 0..6 {
            assert_eq!(d.vertices[6 * face + k].position[*axis], *value);
        }
        assert_eq!(d.vertices[6 * face + 3], d.vertices[6 * face + 2]);
        assert_eq!(d.vertices[6 * face + 5], d.vertices[6 * face]);
    }
}

#[test]
fn static_mesh_draw_call() {
    let turn = Quaternion { w: 0.0f32, x: 1.0, y: 0.0, z: 0.0 };
    let mut mesh = StaticMesh::new(
        VertexArrayObject(1),
        VertexBufferObject(2),
        ElementBufferObject(3),
        36,
        Vector3::new([1.0, 2.0, 3.0]),
        Quaternion::identity(),
        vec![Texture::new(7, 1, 1), Texture::new(9, 2, 2)],
    );
    let call = mesh.draw();
    assert_eq!(call.textures, vec![7, 9]);
    assert_eq!(call.vertex_array, 1);
    assert_eq!(call.element_buffer, 3);
    assert_eq!(call.indices_count, 36);
    assert_eq!(call.translation, Matrix::translation_mat(Vector3::new([1.0, 2.0, 3.0])));
    assert_eq!(call.rotation, Matrix::identity());

    mesh.set_position(Vector3::new([0.0, 1.0, -2.0]));
    mesh.set_rotation(turn);
    let call = mesh.draw();
    assert_eq!(call.textures, vec![7, 9]);
    assert_eq!(call.translation, Matrix::translation_mat(Vector3::new([0.0, 1.0, -2.0])));
    assert_eq!(call.rotation, turn.to_matrix4x4());
    assert_eq!(call.indices_count, 36);
}

#[test]
fn crash_from_render_error() {
    let cases = [
        (RenderError::InitError("no context".to_string()), "couldn't start the rendering process: no context"),
        (RenderError::ShaderError("bad".to_string()), "shader error: bad"),
        (RenderError::UniformError("missing".to_string()), "uniform error: missing"),
        (RenderError::TextureError("broken".to_string()), "texture error: broken"),
        (RenderError::VBOError, "vbo error"),
        (RenderError::VAOError, "vao error"),
        (RenderError::EBOError, "ebo error"),
    ];
    for (error, text) in cases {
        match Crash::from(error) {
            Crash::RenderError(m) => assert_eq!(m, text),
            other => panic!("wrong crash: {:?}", other),
        }
    }
}

#[test]
fn crash_from_window_error() {
    match Crash::from(WindowError::InitError) {
        Crash::WindowError(m) => assert_eq!(m, "couldn't initialize window"),
        other => panic!("wrong crash: {:?}", other),
    }
    match Crash::from(WindowError::CreateError) {
        Crash::WindowError(m) => assert_eq!(m, "couldn't create window"),
        other => panic!("wrong crash: {:?}", other),
    }
}

#[test]
fn crash_from_game_error() {
    match Crash::from(GameError::Other("fell off the map".to_string())) {
        Crash::GameError(m) => assert_eq!(m, "custom game error: fell off the map"),
        other => panic!("wrong crash: {:?}", other),
    }
}

#[test]
fn crash_messages() {
    assert_eq!(Crash::Unknown.message(), "encountered a unknown error!");
    assert_eq!(
        Crash::RenderError("vbo error".to_string()).message(),
        "Renderer crashed: vbo error!"
    );
    assert_eq!(
        Crash::WindowError("couldn't create window".to_string()).message(),
        "Renderer crashed: couldn't create window!"
    );
    assert_eq!(
        Crash::GameError("custom game error: x".to_string()).message(),
        "Game logic crashed: custom game error: x"
    );
    assert_eq!(
        Crash::InputError.message(),
        "encountered a problem while processing input"
    );
}
