//! The fixed choices of the program: its window, its shaders, its texture.

use vstd::prelude::*;
use crate::error::RenderError;
use crate::shader::{ShaderSource, ShaderStage};

verus! {

/// The width of the window, in screen coordinates.
pub const WINDOW_WIDTH: u32 = 800;

/// The height of the window, in screen coordinates.
pub const WINDOW_HEIGHT: u32 = 600;

/// The title of the window.
pub const WINDOW_TITLE: &'static str = "OpenGL Basics in Rust";

/// The major version of the context the window must give.
pub const CONTEXT_VERSION_MAJOR: u32 = 4;

/// The minor version of the context the window must give.
pub const CONTEXT_VERSION_MINOR: u32 = 1;

/// The context must be a core profile one.
pub const CORE_PROFILE: bool = true;

/// The context must be forward compatible.
pub const FORWARD_COMPATIBLE: bool = true;

/// What the start makes of the host's attempt to open the window: without a
/// window of the context asked for there is nothing to go on with.
pub fn window_opened(opened: bool) -> (r: Result<(), RenderError>)
    ensures
        opened ==> r is Ok,
        !opened ==> r == Err::<(), RenderError>(RenderError::WindowCreation),
{
    if opened {
        Ok(())
    } else {
        Err(RenderError::WindowCreation)
    }
}

/// The file the texture is read from.
pub const TEXTURE_PATH: &'static str = "texture.png";

/// The vertex shader: passes the position through and hands the texture
/// coordinate on.
pub const VERTEX_SHADER_SOURCE: &'static str = r#"
    #version 410 core
    layout (location = 0) in vec3 aPos;
    layout (location = 1) in vec2 aTexCoord;

    out vec2 TexCoord;

    void main() {
        gl_Position = vec4(aPos, 1.0);
        TexCoord = aTexCoord;
    }
"#;

/// The fragment shader: samples the texture at the coordinate it is handed.
pub const FRAGMENT_SHADER_SOURCE: &'static str = r#"
    #version 410 core
    in vec2 TexCoord;
    out vec4 Fragcolour;

    uniform sampler2D texture1;

    void main() {
        Fragcolour = texture(texture1, TexCoord);
    }
"#;

/// The vertex shader as a source to compile.
pub fn vertex_shader() -> (r: ShaderSource)
    ensures
        r@.stage == ShaderStage::Vertex,
        r@.text == VERTEX_SHADER_SOURCE@,
{
    ShaderSource { stage: ShaderStage::Vertex, text: VERTEX_SHADER_SOURCE.to_owned() }
}

/// The fragment shader as a source to compile.
pub fn fragment_shader() -> (r: ShaderSource)
    ensures
        r@.stage == ShaderStage::Fragment,
        r@.text == FRAGMENT_SHADER_SOURCE@,
{
    ShaderSource { stage: ShaderStage::Fragment, text: FRAGMENT_SHADER_SOURCE.to_owned() }
}

} // verus!
