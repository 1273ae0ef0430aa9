//! The vocabulary between the library and the host that owns the GPU.
//!
//! The host performs each [`GpuCall`] in the order it is given and hands back
//! the driver's answer to the last one as a [`GpuReply`].

use vstd::prelude::*;
use crate::handle::Handle;

verus! {

/// One call into the graphics driver, with every argument it takes.
///
/// Floating-point arguments travel as IEEE-754 bit patterns, vertex data as
/// one word per component.
#[derive(Clone, Debug, PartialEq, Eq)]
pub enum GpuCall {
    /// Make a shader object of the given stage; answered with its handle.
    CreateShader { kind: u32 },
    /// Replace the source text of a shader.
    ShaderSource { shader: Handle, text: String },
    /// Compile the source a shader holds.
    CompileShader { shader: Handle },
    /// Ask whether the last compilation succeeded; answered with a status.
    GetShaderCompileStatus { shader: Handle },
    /// Ask for the compiler's diagnostics; answered with a log.
    GetShaderInfoLog { shader: Handle },
    /// Delete a shader object.
    DeleteShader { shader: Handle },
    /// Make a program object; answered with its handle.
    CreateProgram,
    /// Attach a shader to a program.
    AttachShader { program: Handle, shader: Handle },
    /// Link the shaders attached to a program.
    LinkProgram { program: Handle },
    /// Ask whether the last link succeeded; answered with a status.
    GetProgramLinkStatus { program: Handle },
    /// Ask for the linker's diagnostics; answered with a log.
    GetProgramInfoLog { program: Handle },
    /// Make a program current, or none.
    UseProgram { current: Option<Handle> },
    /// Make a vertex array object; answered with its handle.
    CreateVertexArray,
    /// Bind a vertex array object, or none.
    BindVertexArray { vertex_array: Option<Handle> },
    /// Make a buffer object; answered with its handle.
    CreateBuffer,
    /// Bind a buffer to a target, or none.
    BindBuffer { target: u32, buffer: Option<Handle> },
    /// Fill the buffer bound to a target.
    BufferData { target: u32, words: Vec<u32>, usage: u32 },
    /// Describe where one vertex attribute lies in the bound buffer.
    VertexAttribPointer {
        index: u32,
        size: i32,
        data_type: u32,
        normalized: bool,
        stride: i32,
        offset: i32,
    },
    /// Switch a vertex attribute on.
    EnableVertexAttribArray { index: u32 },
    /// Make a texture object; answered with its handle.
    CreateTexture,
    /// Bind a texture to a target of the active unit, or none.
    BindTexture { target: u32, texture: Option<Handle> },
    /// Set an integer parameter of the texture bound to a target.
    TexParameter { target: u32, parameter: u32, value: i32 },
    /// Upload one mip level of the texture bound to a target.
    TexImage2D {
        target: u32,
        level: i32,
        internal_format: i32,
        width: i32,
        height: i32,
        border: i32,
        format: u32,
        data_type: u32,
        pixels: Vec<u8>,
    },
    /// Select the active texture unit.
    ActiveTexture { unit: u32 },
    /// Set the colour that clearing writes.
    ClearColor { red: u32, green: u32, blue: u32, alpha: u32 },
    /// Clear the buffers named by the mask.
    Clear { mask: u32 },
    /// Draw consecutive vertices of the bound vertex array.
    DrawArrays { mode: u32, first: i32, count: i32 },
}

/// What a [`GpuCall`] is, with its text and data as sequences.
pub ghost enum CallView {
    CreateShader { kind: u32 },
    ShaderSource { shader: Handle, text: Seq<char> },
    CompileShader { shader: Handle },
    GetShaderCompileStatus { shader: Handle },
    GetShaderInfoLog { shader: Handle },
    DeleteShader { shader: Handle },
    CreateProgram,
    AttachShader { program: Handle, shader: Handle },
    LinkProgram { program: Handle },
    GetProgramLinkStatus { program: Handle },
    GetProgramInfoLog { program: Handle },
    UseProgram { current: Option<Handle> },
    CreateVertexArray,
    BindVertexArray { vertex_array: Option<Handle> },
    CreateBuffer,
    BindBuffer { target: u32, buffer: Option<Handle> },
    BufferData { target: u32, words: Seq<u32>, usage: u32 },
    VertexAttribPointer {
        index: u32,
        size: i32,
        data_type: u32,
        normalized: bool,
        stride: i32,
        offset: i32,
    },
    EnableVertexAttribArray { index: u32 },
    CreateTexture,
    BindTexture { target: u32, texture: Option<Handle> },
    TexParameter { target: u32, parameter: u32, value: i32 },
    TexImage2D {
        target: u32,
        level: i32,
        internal_format: i32,
        width: i32,
        height: i32,
        border: i32,
        format: u32,
        data_type: u32,
        pixels: Seq<u8>,
    },
    ActiveTexture { unit: u32 },
    ClearColor { red: u32, green: u32, blue: u32, alpha: u32 },
    Clear { mask: u32 },
    DrawArrays { mode: u32, first: i32, count: i32 },
}

impl View for GpuCall {
    type V = CallView;

    open spec fn view(&self) -> CallView {
        match *self {
            GpuCall::CreateShader { kind } => CallView::CreateShader { kind },
            GpuCall::ShaderSource { shader, text } => CallView::ShaderSource {
                shader,
                text: text@,
            },
            GpuCall::CompileShader { shader } => CallView::CompileShader { shader },
            GpuCall::GetShaderCompileStatus { shader } => CallView::GetShaderCompileStatus {
                shader,
            },
            GpuCall::GetShaderInfoLog { shader } => CallView::GetShaderInfoLog { shader },
            GpuCall::DeleteShader { shader } => CallView::DeleteShader { shader },
            GpuCall::CreateProgram => CallView::CreateProgram,
            GpuCall::AttachShader { program, shader } => CallView::AttachShader {
                program,
                shader,
            },
            GpuCall::LinkProgram { program } => CallView::LinkProgram { program },
            GpuCall::GetProgramLinkStatus { program } => CallView::GetProgramLinkStatus {
                program,
            },
            GpuCall::GetProgramInfoLog { program } => CallView::GetProgramInfoLog { program },
            GpuCall::UseProgram { current } => CallView::UseProgram { current },
            GpuCall::CreateVertexArray => CallView::CreateVertexArray,
            GpuCall::BindVertexArray { vertex_array } => CallView::BindVertexArray {
                vertex_array,
            },
            GpuCall::CreateBuffer => CallView::CreateBuffer,
            GpuCall::BindBuffer { target, buffer } => CallView::BindBuffer { target, buffer },
            GpuCall::BufferData { target, words, usage } => CallView::BufferData {
                target,
                words: words@,
                usage,
            },
            GpuCall::VertexAttribPointer {
                index,
                size,
                data_type,
                normalized,
                stride,
                offset,
            } => CallView::VertexAttribPointer {
                index,
                size,
                data_type,
                normalized,
                stride,
                offset,
            },
            GpuCall::EnableVertexAttribArray { index } => CallView::EnableVertexAttribArray {
                index,
            },
            GpuCall::CreateTexture => CallView::CreateTexture,
            GpuCall::BindTexture { target, texture } => CallView::BindTexture {
                target,
                texture,
            },
            GpuCall::TexParameter { target, parameter, value } => CallView::TexParameter {
                target,
                parameter,
                value,
            },
            GpuCall::TexImage2D {
                target,
                level,
                internal_format,
                width,
                height,
                border,
                format,
                data_type,
                pixels,
            } => CallView::TexImage2D {
                target,
                level,
                internal_format,
                width,
                height,
                border,
                format,
                data_type,
                pixels: pixels@,
            },
            GpuCall::ActiveTexture { unit } => CallView::ActiveTexture { unit },
            GpuCall::ClearColor { red, green, blue, alpha } => CallView::ClearColor {
                red,
                green,
                blue,
                alpha,
            },
            GpuCall::Clear { mask } => CallView::Clear { mask },
            GpuCall::DrawArrays { mode, first, count } => CallView::DrawArrays {
                mode,
                first,
                count,
            },
        }
    }
}

/// The calls of a batch, each by its view.
pub open spec fn view_all(calls: Seq<GpuCall>) -> Seq<CallView> {
    Seq::new(calls.len(), |i: int| calls[i]@)
}

/// The driver's answer to the last call of a batch.
#[derive(Clone, Debug, PartialEq, Eq)]
pub enum GpuReply {
    /// The call returns nothing.
    Nothing,
    /// The object a create call made.
    Created(Handle),
    /// The flag a status query read.
    Status(bool),
    /// The text a log query read.
    Log(String),
}

/// What a [`GpuReply`] is, with its text as a sequence.
pub ghost enum ReplyView {
    Nothing,
    Created(Handle),
    Status(bool),
    Log(Seq<char>),
}

impl View for GpuReply {
    type V = ReplyView;

    open spec fn view(&self) -> ReplyView {
        match *self {
            GpuReply::Nothing => ReplyView::Nothing,
            GpuReply::Created(handle) => ReplyView::Created(handle),
            GpuReply::Status(flag) => ReplyView::Status(flag),
            GpuReply::Log(text) => ReplyView::Log(text@),
        }
    }
}

/// What one turn of an operation comes to: the phase it leaves the operation
/// in, the calls it issues, and the result if the operation has ended.
pub ghost struct Planned<P, R> {
    /// Where the operation stands after the turn.
    pub phase: P,
    /// The calls the turn issues, in order.
    pub calls: Seq<CallView>,
    /// The operation's result, once it has ended.
    pub result: Option<R>,
}

/// One turn of an operation: the calls to perform next and, once the
/// operation has ended, its result.
///
/// While `result` is `None` the host performs `calls` and comes back with the
/// answer to the last of them. With `result` set it performs `calls` and is
/// done.
#[derive(Debug, PartialEq, Eq)]
pub struct Turn<T> {
    /// The calls to perform, in order.
    pub calls: Vec<GpuCall>,
    /// The operation's result, once it has ended.
    pub result: Option<T>,
}

} // verus!
