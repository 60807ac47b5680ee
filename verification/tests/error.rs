use render_core::{GlError, ShaderCompileType};

#[test]
fn step_names() {
    assert_eq!(ShaderCompileType::Program.name(), "Program");
    assert_eq!(ShaderCompileType::Vertex.name(), "Vertex");
    assert_eq!(ShaderCompileType::Fragment.name(), "Fragment");
    assert_eq!(ShaderCompileType::Geometry.name(), "Geometry");
}

#[test]
fn messages_of_every_error() {
    assert_eq!(
        GlError::CStringError(12).message(),
        "nul byte found in provided data at position: 12"
    );
    assert_eq!(
        GlError::UniformNotFound("model".to_string(), 3).message(),
        "Uniform 'model' was not found in shader 3"
    );
    assert_eq!(
        GlError::ShaderCompileError(ShaderCompileType::Fragment, 17, "0:1: syntax error".to_string()).message(),
        "Shader 'Fragment' with ID 17 failed to compile:\n0:1: syntax error"
    );
    assert_eq!(
        GlError::UniformInvalidIndex("Matrices".to_string(), 3).message(),
        "Uniform block 'Matrices' was not found in shader 3"
    );
    assert_eq!(GlError::FramebufferNotComplete(5).message(), "Framebuffer '5' is not complete");
    assert_eq!(GlError::UniformBufferMissing.message(), "Uniform buffer is not present");
    assert_eq!(GlError::CannotResize(40).message(), "Cannot resize texture '40'");
    assert_eq!(GlError::IncorrectSize(6, 5).message(), "Incorrect size: expected 6, found 5");
    assert_eq!(GlError::IndexOutOfBounds(3, 3).message(), "Index 3 is out of bounds for length 3");
}

#[test]
fn numbers_are_written_in_decimal() {
    for id in [0u32, 7, 10, 99, 100, 1234567890, u32::MAX] {
        assert_eq!(GlError::CannotResize(id).message(), format!("Cannot resize texture '{}'", id));
    }
    for at in [0usize, 9, 10, 1000, usize::MAX] {
        assert_eq!(
            GlError::CStringError(at).message(),
            format!("nul byte found in provided data at position: {}", at)
        );
    }
}
