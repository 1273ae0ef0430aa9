use gl_pipeline::codes::{FRAGMENT_SHADER, VERTEX_SHADER};
use gl_pipeline::context::RenderContext;
use gl_pipeline::error::RenderError;
use gl_pipeline::gpu::{GpuCall, GpuReply};
use gl_pipeline::handle::Handle;
use gl_pipeline::shader::{
    compile_shader, link_program, CompilePhase, CompiledShader, LinkPhase, ShaderProgram,
    ShaderSource, ShaderStage,
};

fn handle(raw: u32) -> Handle {
    Handle::new(raw).unwrap()
}

fn source(stage: ShaderStage, text: &str) -> ShaderSource {
    ShaderSource { stage, text: text.to_string() }
}

/// Runs a compilation against a driver that answers with `replies`, in order.
fn compile(
    source: &ShaderSource,
    replies: Vec<GpuReply>,
) -> (Vec<GpuCall>, Option<Result<CompiledShader, RenderError>>, CompilePhase) {
    let mut ctx = RenderContext::new();
    let mut phase = CompilePhase::Start;
    let mut calls = Vec::new();
    let mut turn = compile_shader(&mut ctx, source, &mut phase, GpuReply::Nothing);
    calls.extend(turn.calls);
    for reply in replies {
        if turn.result.is_some() {
            break;
        }
        turn = compile_shader(&mut ctx, source, &mut phase, reply);
        calls.extend(turn.calls);
    }
    assert_eq!(ctx, RenderContext::new());
    (calls, turn.result, phase)
}

/// Runs a link against a driver that answers with `replies`, in order.
fn link(
    vertex: CompiledShader,
    fragment: CompiledShader,
    replies: Vec<GpuReply>,
) -> (Vec<GpuCall>, Option<Result<ShaderProgram, RenderError>>, LinkPhase) {
    let mut ctx = RenderContext::new();
    let mut phase = LinkPhase::Start;
    let mut calls = Vec::new();
    let mut turn = link_program(&mut ctx, vertex, fragment, &mut phase, GpuReply::Nothing);
    calls.extend(turn.calls);
    for reply in replies {
        if turn.result.is_some() {
            break;
        }
        turn = link_program(&mut ctx, vertex, fragment, &mut phase, reply);
        calls.extend(turn.calls);
    }
    assert_eq!(ctx, RenderContext::new());
    (calls, turn.result, phase)
}

fn pair() -> (CompiledShader, CompiledShader) {
    (
        CompiledShader { handle: handle(1), stage: ShaderStage::Vertex },
        CompiledShader { handle: handle(2), stage: ShaderStage::Fragment },
    )
}

fn deletions(calls: &[GpuCall], shader: Handle) -> usize {
    calls.iter().filter(|call| **call == GpuCall::DeleteShader { shader }).count()
}

#[test]
fn stages_have_the_drivers_codes() {
    assert_eq!(ShaderStage::Vertex.kind(), VERTEX_SHADER);
    assert_eq!(ShaderStage::Fragment.kind(), FRAGMENT_SHADER);
    assert_eq!(ShaderStage::Vertex.kind(), 0x8B31);
    assert_eq!(ShaderStage::Fragment.kind(), 0x8B30);
}

#[test]
fn compilation_starts_by_asking_for_a_shader() {
    let src = source(ShaderStage::Fragment, "void main() {}");
    let mut ctx = RenderContext::new();
    let mut phase = CompilePhase::Start;
    let turn = compile_shader(&mut ctx, &src, &mut phase, GpuReply::Status(true));
    assert_eq!(turn.calls, vec![GpuCall::CreateShader { kind: FRAGMENT_SHADER }]);
    assert_eq!(turn.result, None);
    assert_eq!(phase, CompilePhase::AwaitShader);
}

#[test]
fn accepted_source_compiles_to_its_shader() {
    let src = source(ShaderStage::Vertex, "void main() { gl_Position = vec4(0.0); }");
    let (calls, result, phase) =
        compile(&src, vec![GpuReply::Created(handle(7)), GpuReply::Status(true)]);
    assert_eq!(
        calls,
        vec![
            GpuCall::CreateShader { kind: VERTEX_SHADER },
            GpuCall::ShaderSource { shader: handle(7), text: src.text.clone() },
            GpuCall::CompileShader { shader: handle(7) },
            GpuCall::GetShaderCompileStatus { shader: handle(7) },
        ]
    );
    let compiled = result.unwrap().unwrap();
    assert_eq!(compiled, CompiledShader { handle: handle(7), stage: ShaderStage::Vertex });
    assert_ne!(compiled.handle.raw(), 0);
    assert_eq!(phase, CompilePhase::Finished);
}

#[test]
fn rejected_source_fails_with_the_drivers_log() {
    let src = source(ShaderStage::Fragment, "void main() { syntax error");
    let log = "0:1(28): error: syntax error, unexpected end of file";
    let (calls, result, phase) = compile(
        &src,
        vec![
            GpuReply::Created(handle(9)),
            GpuReply::Status(false),
            GpuReply::Log(log.to_string()),
        ],
    );
    assert_eq!(
        calls,
        vec![
            GpuCall::CreateShader { kind: FRAGMENT_SHADER },
            GpuCall::ShaderSource { shader: handle(9), text: src.text.clone() },
            GpuCall::CompileShader { shader: handle(9) },
            GpuCall::GetShaderCompileStatus { shader: handle(9) },
            GpuCall::GetShaderInfoLog { shader: handle(9) },
        ]
    );
    let error = result.unwrap().unwrap_err();
    assert_eq!(error, RenderError::ShaderCompile { log: log.to_string() });
    assert_eq!(error.diagnostic(), Some(&log.to_string()));
    assert!(!error.diagnostic().unwrap().is_empty());
    assert_eq!(phase, CompilePhase::Finished);
}

#[test]
fn rejected_source_keeps_an_empty_log_empty() {
    let src = source(ShaderStage::Vertex, "");
    let (_, result, _) = compile(
        &src,
        vec![GpuReply::Created(handle(1)), GpuReply::Status(false), GpuReply::Log(String::new())],
    );
    assert_eq!(result, Some(Err(RenderError::ShaderCompile { log: String::new() })));
}

#[test]
fn compilation_waits_for_the_log_before_it_fails() {
    let src = source(ShaderStage::Vertex, "x");
    let (calls, result, phase) =
        compile(&src, vec![GpuReply::Created(handle(1)), GpuReply::Status(false)]);
    assert_eq!(calls.last(), Some(&GpuCall::GetShaderInfoLog { shader: handle(1) }));
    assert_eq!(result, None);
    assert_eq!(phase, CompilePhase::AwaitLog { shader: handle(1) });
}

#[test]
fn compilation_rejects_a_reply_of_the_wrong_kind() {
    let src = source(ShaderStage::Vertex, "x");
    let (calls, result, phase) = compile(&src, vec![GpuReply::Status(true)]);
    assert_eq!(calls, vec![GpuCall::CreateShader { kind: VERTEX_SHADER }]);
    assert_eq!(result, Some(Err(RenderError::UnexpectedReply)));
    assert_eq!(phase, CompilePhase::Finished);

    let (_, result, _) = compile(&src, vec![GpuReply::Created(handle(1)), GpuReply::Nothing]);
    assert_eq!(result, Some(Err(RenderError::UnexpectedReply)));

    let (_, result, _) = compile(
        &src,
        vec![GpuReply::Created(handle(1)), GpuReply::Status(false), GpuReply::Status(true)],
    );
    assert_eq!(result, Some(Err(RenderError::UnexpectedReply)));
}

#[test]
fn finished_compilation_stays_finished() {
    let src = source(ShaderStage::Vertex, "x");
    let mut ctx = RenderContext::new();
    let mut phase = CompilePhase::Finished;
    let turn = compile_shader(&mut ctx, &src, &mut phase, GpuReply::Created(handle(1)));
    assert!(turn.calls.is_empty());
    assert_eq!(turn.result, Some(Err(RenderError::UnexpectedReply)));
    assert_eq!(phase, CompilePhase::Finished);
}

#[test]
fn accepted_pair_links_and_both_shaders_are_deleted_once() {
    let (vertex, fragment) = pair();
    let (calls, result, phase) =
        link(vertex, fragment, vec![GpuReply::Created(handle(5)), GpuReply::Status(true)]);
    assert_eq!(
        calls,
        vec![
            GpuCall::CreateProgram,
            GpuCall::AttachShader { program: handle(5), shader: handle(1) },
            GpuCall::AttachShader { program: handle(5), shader: handle(2) },
            GpuCall::LinkProgram { program: handle(5) },
            GpuCall::GetProgramLinkStatus { program: handle(5) },
            GpuCall::DeleteShader { shader: handle(1) },
            GpuCall::DeleteShader { shader: handle(2) },
        ]
    );
    assert_eq!(deletions(&calls, handle(1)), 1);
    assert_eq!(deletions(&calls, handle(2)), 1);
    assert_eq!(result, Some(Ok(ShaderProgram { handle: handle(5) })));
    assert_eq!(phase, LinkPhase::Finished);
}

#[test]
fn rejected_pair_fails_with_the_log_and_both_shaders_are_deleted_once() {
    let (vertex, fragment) = pair();
    let log = "error: fragment shader input `TexCoord' has no matching output";
    let (calls, result, phase) = link(
        vertex,
        fragment,
        vec![
            GpuReply::Created(handle(5)),
            GpuReply::Status(false),
            GpuReply::Log(log.to_string()),
        ],
    );
    assert_eq!(
        calls,
        vec![
            GpuCall::CreateProgram,
            GpuCall::AttachShader { program: handle(5), shader: handle(1) },
            GpuCall::AttachShader { program: handle(5), shader: handle(2) },
            GpuCall::LinkProgram { program: handle(5) },
            GpuCall::GetProgramLinkStatus { program: handle(5) },
            GpuCall::GetProgramInfoLog { program: handle(5) },
            GpuCall::DeleteShader { shader: handle(1) },
            GpuCall::DeleteShader { shader: handle(2) },
        ]
    );
    assert_eq!(deletions(&calls, handle(1)), 1);
    assert_eq!(deletions(&calls, handle(2)), 1);
    let error = result.unwrap().unwrap_err();
    assert_eq!(error, RenderError::ProgramLink { log: log.to_string() });
    assert!(!error.diagnostic().unwrap().is_empty());
    assert_eq!(phase, LinkPhase::Finished);
}

#[test]
fn link_deletes_nothing_before_the_driver_has_decided() {
    let (vertex, fragment) = pair();
    let (calls, result, phase) = link(vertex, fragment, vec![GpuReply::Created(handle(5))]);
    assert_eq!(deletions(&calls, handle(1)), 0);
    assert_eq!(deletions(&calls, handle(2)), 0);
    assert_eq!(result, None);
    assert_eq!(phase, LinkPhase::AwaitStatus { program: handle(5) });
}

#[test]
fn link_rejects_a_reply_of_the_wrong_kind() {
    let (vertex, fragment) = pair();
    let (calls, result, phase) = link(vertex, fragment, vec![GpuReply::Log(String::new())]);
    assert_eq!(calls, vec![GpuCall::CreateProgram]);
    assert_eq!(result, Some(Err(RenderError::UnexpectedReply)));
    assert_eq!(phase, LinkPhase::Finished);

    let mut ctx = RenderContext::new();
    let mut phase = LinkPhase::Finished;
    let turn = link_program(&mut ctx, vertex, fragment, &mut phase, GpuReply::Status(true));
    assert!(turn.calls.is_empty());
    assert_eq!(turn.result, Some(Err(RenderError::UnexpectedReply)));
}

#[test]
fn only_driver_errors_carry_a_diagnostic() {
    assert_eq!(RenderError::WindowCreation.diagnostic(), None);
    assert_eq!(RenderError::TextureDecode.diagnostic(), None);
    assert_eq!(RenderError::UnexpectedReply.diagnostic(), None);
    let log = "link failed".to_string();
    assert_eq!(RenderError::ProgramLink { log: log.clone() }.diagnostic(), Some(&log));
}
