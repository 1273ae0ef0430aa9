use gl_pipeline::codes::{FRAGMENT_SHADER, VERTEX_SHADER};
use gl_pipeline::config;
use gl_pipeline::context::RenderContext;
use gl_pipeline::error::RenderError;
use gl_pipeline::frame::Scene;
use gl_pipeline::gpu::{GpuCall, GpuReply};
use gl_pipeline::handle::Handle;
use gl_pipeline::mesh::{MeshBuffer, UploadedMesh};
use gl_pipeline::pipeline::{set_up, PipelineDescription, SetupPhase};
use gl_pipeline::shader::{ShaderProgram, ShaderStage};
use gl_pipeline::texture::{DecodedImage, Texture};

fn handle(raw: u32) -> Handle {
    Handle::new(raw).unwrap()
}

/// A driver that hands out handles 1, 2, 3, ... and reports the statuses it
/// was told to, first the vertex shader's, then the fragment shader's, then
/// the program's.
struct Driver {
    next: u32,
    statuses: Vec<bool>,
    performed: Vec<GpuCall>,
}

impl Driver {
    fn new(statuses: [bool; 3]) -> Driver {
        let mut statuses = statuses.to_vec();
        statuses.reverse();
        Driver { next: 1, statuses, performed: Vec::new() }
    }

    fn create(&mut self) -> GpuReply {
        let made = handle(self.next);
        self.next += 1;
        GpuReply::Created(made)
    }

    fn perform(&mut self, calls: Vec<GpuCall>) -> GpuReply {
        let mut reply = GpuReply::Nothing;
        for call in calls {
            reply = match &call {
                GpuCall::CreateShader { .. }
                | GpuCall::CreateProgram
                | GpuCall::CreateVertexArray
                | GpuCall::CreateBuffer
                | GpuCall::CreateTexture => self.create(),
                GpuCall::GetShaderCompileStatus { .. } | GpuCall::GetProgramLinkStatus { .. } => {
                    GpuReply::Status(self.statuses.pop().unwrap())
                }
                GpuCall::GetShaderInfoLog { shader } => {
                    GpuReply::Log(format!("shader {} rejected", shader.raw()))
                }
                GpuCall::GetProgramInfoLog { program } => {
                    GpuReply::Log(format!("program {} rejected", program.raw()))
                }
                _ => GpuReply::Nothing,
            };
            self.performed.push(call);
        }
        reply
    }

    fn run(&mut self, desc: &PipelineDescription) -> (Result<Scene, RenderError>, RenderContext) {
        let mut ctx = RenderContext::new();
        let mut phase = SetupPhase::Start;
        let mut reply = GpuReply::Nothing;
        loop {
            let turn = set_up(&mut ctx, desc, &mut phase, reply);
            reply = self.perform(turn.calls);
            if let Some(result) = turn.result {
                assert_eq!(phase, SetupPhase::Finished);
                return (result, ctx);
            }
            assert_ne!(phase, SetupPhase::Finished);
        }
    }
}

fn description(texture: Option<DecodedImage>) -> PipelineDescription {
    PipelineDescription {
        vertex_shader: config::vertex_shader(),
        fragment_shader: config::fragment_shader(),
        mesh: if texture.is_some() { MeshBuffer::textured_triangle() } else { MeshBuffer::triangle() },
        texture,
    }
}

fn image() -> DecodedImage {
    DecodedImage::new(2, 2, vec![255; 16]).unwrap()
}

fn count(calls: &[GpuCall], wanted: fn(&GpuCall) -> bool) -> usize {
    calls.iter().filter(|call| wanted(call)).count()
}

#[test]
fn fixed_choices_are_the_programs() {
    assert_eq!(config::WINDOW_WIDTH, 800);
    assert_eq!(config::WINDOW_HEIGHT, 600);
    assert_eq!(config::WINDOW_TITLE, "OpenGL Basics in Rust");
    assert_eq!((config::CONTEXT_VERSION_MAJOR, config::CONTEXT_VERSION_MINOR), (4, 1));
    assert!(config::CORE_PROFILE);
    assert!(config::FORWARD_COMPATIBLE);
    assert_eq!(config::TEXTURE_PATH, "texture.png");
}

#[test]
fn start_needs_the_window() {
    assert_eq!(config::window_opened(true), Ok(()));
    assert_eq!(config::window_opened(false), Err(RenderError::WindowCreation));
}

#[test]
fn fixed_shaders_are_a_vertex_and_a_fragment_source() {
    let vertex = config::vertex_shader();
    assert_eq!(vertex.stage, ShaderStage::Vertex);
    assert_eq!(vertex.text, config::VERTEX_SHADER_SOURCE);
    assert!(vertex.text.contains("#version 410 core"));
    assert!(vertex.text.contains("layout (location = 0) in vec3 aPos;"));
    assert!(vertex.text.contains("layout (location = 1) in vec2 aTexCoord;"));
    let fragment = config::fragment_shader();
    assert_eq!(fragment.stage, ShaderStage::Fragment);
    assert_eq!(fragment.text, config::FRAGMENT_SHADER_SOURCE);
    assert!(fragment.text.contains("uniform sampler2D texture1;"));
}

#[test]
fn setup_with_texture_makes_the_whole_scene() {
    let desc = description(Some(image()));
    let mut driver = Driver::new([true, true, true]);
    let (result, ctx) = driver.run(&desc);
    assert_eq!(
        result,
        Ok(Scene {
            program: ShaderProgram { handle: handle(3) },
            mesh: UploadedMesh { vertex_array: handle(4), buffer: handle(5), vertex_count: 3 },
            texture: Some(Texture { handle: handle(6), width: 2, height: 2 }),
        })
    );
    assert_eq!(ctx.vertex_array, Some(handle(4)));
    assert_eq!(ctx.array_buffer, Some(handle(5)));
    assert_eq!(ctx.first_unit_texture, Some(handle(6)));
    assert_eq!(ctx.program, None);
    let mut replayed = RenderContext::new();
    replayed.record_all(&driver.performed);
    assert_eq!(replayed, ctx);
}

#[test]
fn setup_issues_each_part_in_order() {
    let desc = description(Some(image()));
    let mut driver = Driver::new([true, true, true]);
    driver.run(&desc);
    let calls = &driver.performed;
    assert_eq!(calls.len(), 1 + 4 + 4 + 5 + 2 + 9 + 7);
    assert!(matches!(calls[0], GpuCall::ClearColor { .. }));
    assert_eq!(calls[1], GpuCall::CreateShader { kind: VERTEX_SHADER });
    assert_eq!(
        calls[2],
        GpuCall::ShaderSource { shader: handle(1), text: desc.vertex_shader.text.clone() }
    );
    assert_eq!(calls[5], GpuCall::CreateShader { kind: FRAGMENT_SHADER });
    assert_eq!(
        calls[6],
        GpuCall::ShaderSource { shader: handle(2), text: desc.fragment_shader.text.clone() }
    );
    assert_eq!(calls[9], GpuCall::CreateProgram);
    assert_eq!(calls[10], GpuCall::AttachShader { program: handle(3), shader: handle(1) });
    assert_eq!(calls[11], GpuCall::AttachShader { program: handle(3), shader: handle(2) });
    assert_eq!(calls[14], GpuCall::DeleteShader { shader: handle(1) });
    assert_eq!(calls[15], GpuCall::DeleteShader { shader: handle(2) });
    assert_eq!(calls[16], GpuCall::CreateVertexArray);
    assert_eq!(calls[25], GpuCall::CreateTexture);
    assert!(matches!(calls[31], GpuCall::TexImage2D { level: 0, width: 2, height: 2, .. }));
}

#[test]
fn setup_deletes_the_shaders_and_nothing_else() {
    let desc = description(Some(image()));
    let mut driver = Driver::new([true, true, true]);
    driver.run(&desc);
    let deleted: Vec<&GpuCall> = driver
        .performed
        .iter()
        .filter(|call| matches!(call, GpuCall::DeleteShader { .. }))
        .collect();
    assert_eq!(
        deleted,
        vec![
            &GpuCall::DeleteShader { shader: handle(1) },
            &GpuCall::DeleteShader { shader: handle(2) },
        ]
    );
}

#[test]
fn setup_without_texture_ends_after_the_mesh() {
    let desc = description(None);
    let mut driver = Driver::new([true, true, true]);
    let (result, ctx) = driver.run(&desc);
    assert_eq!(
        result,
        Ok(Scene {
            program: ShaderProgram { handle: handle(3) },
            mesh: UploadedMesh { vertex_array: handle(4), buffer: handle(5), vertex_count: 3 },
            texture: None,
        })
    );
    assert_eq!(driver.performed.len(), 1 + 4 + 4 + 5 + 2 + 7);
    assert_eq!(count(&driver.performed, |call| matches!(call, GpuCall::CreateTexture)), 0);
    assert_eq!(ctx.first_unit_texture, None);
}

#[test]
fn setup_ends_when_the_vertex_shader_is_rejected() {
    let desc = description(Some(image()));
    let mut driver = Driver::new([false, true, true]);
    let (result, _) = driver.run(&desc);
    assert_eq!(result, Err(RenderError::ShaderCompile { log: "shader 1 rejected".to_string() }));
    assert_eq!(driver.performed.len(), 1 + 5);
    assert_eq!(count(&driver.performed, |call| matches!(call, GpuCall::CreateShader { .. })), 1);
    assert_eq!(count(&driver.performed, |call| matches!(call, GpuCall::CreateProgram)), 0);
}

#[test]
fn setup_ends_when_the_fragment_shader_is_rejected() {
    let desc = description(Some(image()));
    let mut driver = Driver::new([true, false, true]);
    let (result, _) = driver.run(&desc);
    assert_eq!(result, Err(RenderError::ShaderCompile { log: "shader 2 rejected".to_string() }));
    assert_eq!(driver.performed.len(), 1 + 4 + 5);
    assert_eq!(count(&driver.performed, |call| matches!(call, GpuCall::CreateProgram)), 0);
}

#[test]
fn setup_ends_when_the_program_is_rejected() {
    let desc = description(Some(image()));
    let mut driver = Driver::new([true, true, false]);
    let (result, ctx) = driver.run(&desc);
    assert_eq!(result, Err(RenderError::ProgramLink { log: "program 3 rejected".to_string() }));
    assert_eq!(driver.performed.len(), 1 + 4 + 4 + 6 + 2);
    assert_eq!(count(&driver.performed, |call| matches!(call, GpuCall::DeleteShader { .. })), 2);
    assert_eq!(count(&driver.performed, |call| matches!(call, GpuCall::CreateVertexArray)), 0);
    assert_eq!(ctx, RenderContext::new());
}

#[test]
fn setup_rejects_a_reply_of_the_wrong_kind() {
    let desc = description(None);
    let mut ctx = RenderContext::new();
    let mut phase = SetupPhase::Start;
    let first = set_up(&mut ctx, &desc, &mut phase, GpuReply::Nothing);
    assert_eq!(first.calls.len(), 2);
    assert_eq!(first.result, None);
    let second = set_up(&mut ctx, &desc, &mut phase, GpuReply::Status(true));
    assert!(second.calls.is_empty());
    assert_eq!(second.result, Some(Err(RenderError::UnexpectedReply)));
    assert_eq!(phase, SetupPhase::Finished);
}

#[test]
fn finished_setup_stays_finished() {
    let desc = description(None);
    let mut driver = Driver::new([true, true, true]);
    driver.run(&desc);
    let mut ctx = RenderContext::new();
    let mut phase = SetupPhase::Finished;
    let turn = set_up(&mut ctx, &desc, &mut phase, GpuReply::Created(handle(9)));
    assert!(turn.calls.is_empty());
    assert_eq!(turn.result, Some(Err(RenderError::UnexpectedReply)));
    assert_eq!(phase, SetupPhase::Finished);
}
