//! Building the shader program: compiling each stage, then linking the pair.

use vstd::prelude::*;
use crate::codes::{FRAGMENT_SHADER, VERTEX_SHADER};
use crate::context::{issue, RenderContext};
use crate::error::{result_view, ErrorView, RenderError};
use crate::gpu::{view_all, CallView, GpuCall, GpuReply, Planned, ReplyView, Turn};
use crate::handle::Handle;

verus! {

/// The pipeline stage a shader runs in.
#[derive(Clone, Copy, Debug, PartialEq, Eq, Structural)]
pub enum ShaderStage {
    Vertex,
    Fragment,
}

impl ShaderStage {
    /// The driver's enumerant for the stage.
    pub open spec fn code(self) -> u32 {
        match self {
            ShaderStage::Vertex => VERTEX_SHADER,
            ShaderStage::Fragment => FRAGMENT_SHADER,
        }
    }

    /// The driver's enumerant for the stage.
    pub fn kind(&self) -> (r: u32)
        ensures
            r == self.code(),
    {
        match self {
            ShaderStage::Vertex => VERTEX_SHADER,
            ShaderStage::Fragment => FRAGMENT_SHADER,
        }
    }
}

/// Shader source text and the stage it is written for.
#[derive(Clone, Debug, PartialEq, Eq)]
pub struct ShaderSource {
    /// The stage the text is written for.
    pub stage: ShaderStage,
    /// The text handed to the driver's compiler.
    pub text: String,
}

/// What a [`ShaderSource`] is, with its text as a sequence.
pub ghost struct SourceView {
    pub stage: ShaderStage,
    pub text: Seq<char>,
}

impl View for ShaderSource {
    type V = SourceView;

    open spec fn view(&self) -> SourceView {
        SourceView { stage: self.stage, text: self.text@ }
    }
}

/// A shader object whose compilation succeeded.
#[derive(Clone, Copy, Debug, PartialEq, Eq)]
pub struct CompiledShader {
    /// The shader object.
    pub handle: Handle,
    /// The stage it was compiled for.
    pub stage: ShaderStage,
}

/// A program object whose link succeeded.
#[derive(Clone, Copy, Debug, PartialEq, Eq)]
pub struct ShaderProgram {
    /// The program object.
    pub handle: Handle,
}

/// How far the compilation of one shader has come.
#[derive(Clone, Copy, Debug, PartialEq, Eq)]
pub enum CompilePhase {
    /// Nothing issued yet.
    Start,
    /// The shader object was asked for.
    AwaitShader,
    /// The source was submitted and compiled, the status asked for.
    AwaitStatus { shader: Handle },
    /// Compilation failed and the log was asked for.
    AwaitLog { shader: Handle },
    /// The compilation has ended.
    Finished,
}

/// What the next turn of a compilation comes to, given where it stands and
/// what the driver answered.
///
/// A shader object goes from created to compiled or to failed and is never
/// used again after either. A reply of a kind the phase does not wait for
/// ends the compilation with [`RenderError::UnexpectedReply`].
pub open spec fn compile_model(source: SourceView, phase: CompilePhase, reply: ReplyView) -> Planned<
    CompilePhase,
    Result<CompiledShader, ErrorView>,
> {
    match (phase, reply) {
        (CompilePhase::Start, _) => Planned {
            phase: CompilePhase::AwaitShader,
            calls: seq![CallView::CreateShader { kind: source.stage.code() }],
            result: None,
        },
        (CompilePhase::AwaitShader, ReplyView::Created(shader)) => Planned {
            phase: CompilePhase::AwaitStatus { shader },
            calls: seq![
                CallView::ShaderSource { shader, text: source.text },
                CallView::CompileShader { shader },
                CallView::GetShaderCompileStatus { shader },
            ],
            result: None,
        },
        (CompilePhase::AwaitStatus { shader }, ReplyView::Status(true)) => Planned {
            phase: CompilePhase::Finished,
            calls: seq![],
            result: Some(Ok(CompiledShader { handle: shader, stage: source.stage })),
        },
        (CompilePhase::AwaitStatus { shader }, ReplyView::Status(false)) => Planned {
            phase: CompilePhase::AwaitLog { shader },
            calls: seq![CallView::GetShaderInfoLog { shader }],
            result: None,
        },
        (CompilePhase::AwaitLog { shader }, ReplyView::Log(text)) => Planned {
            phase: CompilePhase::Finished,
            calls: seq![],
            result: Some(Err(ErrorView::ShaderCompile { log: text })),
        },
        _ => Planned {
            phase: CompilePhase::Finished,
            calls: seq![],
            result: Some(Err(ErrorView::UnexpectedReply)),
        },
    }
}

/// Takes the compilation of `source` one turn further.
///
/// Start with [`CompilePhase::Start`] and any reply. Compiling binds nothing.
pub fn compile_shader(
    ctx: &mut RenderContext,
    source: &ShaderSource,
    phase: &mut CompilePhase,
    reply: GpuReply,
) -> (turn: Turn<Result<CompiledShader, RenderError>>)
    ensures
        *final(phase) == compile_model(source@, *old(phase), reply@).phase,
        view_all(turn.calls@) == compile_model(source@, *old(phase), reply@).calls,
        result_view(turn.result) == compile_model(source@, *old(phase), reply@).result,
        *final(ctx) == *old(ctx),
        *final(ctx) == old(ctx).after_all(view_all(turn.calls@)),
{
    let ghost base = *ctx;
    let mut calls: Vec<GpuCall> = Vec::new();
    assert(view_all(calls@) =~= Seq::<CallView>::empty());
    let mut result: Option<Result<CompiledShader, RenderError>> = None;
    match (*phase, reply) {
        (CompilePhase::Start, _) => {
            issue(ctx, &mut calls, GpuCall::CreateShader { kind: source.stage.kind() }, Ghost(base));
            *phase = CompilePhase::AwaitShader;
        },
        (CompilePhase::AwaitShader, GpuReply::Created(shader)) => {
            let text = source.text.clone();
            issue(ctx, &mut calls, GpuCall::ShaderSource { shader, text }, Ghost(base));
            issue(ctx, &mut calls, GpuCall::CompileShader { shader }, Ghost(base));
            issue(ctx, &mut calls, GpuCall::GetShaderCompileStatus { shader }, Ghost(base));
            *phase = CompilePhase::AwaitStatus { shader };
        },
        (CompilePhase::AwaitStatus { shader }, GpuReply::Status(true)) => {
            result = Some(Ok(CompiledShader { handle: shader, stage: source.stage }));
            *phase = CompilePhase::Finished;
        },
        (CompilePhase::AwaitStatus { shader }, GpuReply::Status(false)) => {
            issue(ctx, &mut calls, GpuCall::GetShaderInfoLog { shader }, Ghost(base));
            *phase = CompilePhase::AwaitLog { shader };
        },
        (CompilePhase::AwaitLog { shader }, GpuReply::Log(text)) => {
            result = Some(Err(RenderError::ShaderCompile { log: text }));
            *phase = CompilePhase::Finished;
        },
        _ => {
            result = Some(Err(RenderError::UnexpectedReply));
            *phase = CompilePhase::Finished;
        },
    }
    assert(view_all(calls@) =~= compile_model(source@, *old(phase), reply@).calls);
    Turn { calls, result }
}

/// The calls a compilation issues up to and with the status query.
pub open spec fn compile_calls(source: SourceView, shader: Handle) -> Seq<CallView> {
    seq![
        CallView::CreateShader { kind: source.stage.code() },
        CallView::ShaderSource { shader, text: source.text },
        CallView::CompileShader { shader },
        CallView::GetShaderCompileStatus { shader },
    ]
}

/// A source the driver's compiler accepts compiles to the shader object the
/// driver made for it: the exchange is the four calls of [`compile_calls`],
/// no log is asked for, and the result is that object with the source's stage.
pub proof fn lemma_accepted_source_compiles(source: SourceView, shader: Handle)
    ensures
        ({
            let first = compile_model(source, CompilePhase::Start, ReplyView::Nothing);
            let second = compile_model(source, first.phase, ReplyView::Created(shader));
            let third = compile_model(source, second.phase, ReplyView::Status(true));
            &&& first.result is None
            &&& second.result is None
            &&& first.calls + second.calls + third.calls == compile_calls(source, shader)
            &&& third.result == Some(
                Ok::<CompiledShader, ErrorView>(
                    CompiledShader { handle: shader, stage: source.stage },
                ),
            )
            &&& third.phase == CompilePhase::Finished
        }),
{
    let first = compile_model(source, CompilePhase::Start, ReplyView::Nothing);
    let second = compile_model(source, first.phase, ReplyView::Created(shader));
    let third = compile_model(source, second.phase, ReplyView::Status(true));
    assert(first.calls + second.calls + third.calls =~= compile_calls(source, shader));
}

/// A source the driver's compiler rejects ends in an error that carries the
/// driver's log as it came: after the four calls of [`compile_calls`] the log
/// is asked for, and whatever text the driver answers is the error's text.
pub proof fn lemma_rejected_source_fails(source: SourceView, shader: Handle, log: Seq<char>)
    ensures
        ({
            let first = compile_model(source, CompilePhase::Start, ReplyView::Nothing);
            let second = compile_model(source, first.phase, ReplyView::Created(shader));
            let third = compile_model(source, second.phase, ReplyView::Status(false));
            let fourth = compile_model(source, third.phase, ReplyView::Log(log));
            &&& first.result is None
            &&& second.result is None
            &&& third.result is None
            &&& first.calls + second.calls + third.calls + fourth.calls == compile_calls(
                source,
                shader,
            ).push(CallView::GetShaderInfoLog { shader })
            &&& fourth.result == Some(
                Err::<CompiledShader, ErrorView>(ErrorView::ShaderCompile { log }),
            )
            &&& fourth.phase == CompilePhase::Finished
        }),
{
    let first = compile_model(source, CompilePhase::Start, ReplyView::Nothing);
    let second = compile_model(source, first.phase, ReplyView::Created(shader));
    let third = compile_model(source, second.phase, ReplyView::Status(false));
    let fourth = compile_model(source, third.phase, ReplyView::Log(log));
    assert(first.calls + second.calls + third.calls + fourth.calls =~= compile_calls(
        source,
        shader,
    ).push(CallView::GetShaderInfoLog { shader }));
}

/// A compilation ends with a shader exactly when the driver reports success:
/// no turn yields a shader but the one that takes a true status, and that
/// turn yields the shader whose status was asked for. A turn hands out a
/// result exactly when it ends the compilation.
pub proof fn lemma_compiled_iff_status(source: SourceView, phase: CompilePhase, reply: ReplyView)
    ensures
        compile_model(source, phase, reply).result matches Some(Ok(compiled)) <==> phase
            is AwaitStatus && reply == ReplyView::Status(true),
        compile_model(source, phase, reply).result matches Some(Ok(compiled)) ==> phase
            == (CompilePhase::AwaitStatus { shader: compiled.handle }) && compiled.stage
            == source.stage,
        compile_model(source, phase, reply).result is Some <==> compile_model(
            source,
            phase,
            reply,
        ).phase == CompilePhase::Finished,
{
}

/// How far the linking of one program has come.
#[derive(Clone, Copy, Debug, PartialEq, Eq)]
pub enum LinkPhase {
    /// Nothing issued yet.
    Start,
    /// The program object was asked for.
    AwaitProgram,
    /// Both shaders were attached and linked, the status asked for.
    AwaitStatus { program: Handle },
    /// Linking failed and the log was asked for.
    AwaitLog { program: Handle },
    /// The linking has ended.
    Finished,
}

/// The two calls that delete the shader objects a link took.
pub open spec fn delete_calls(vertex: CompiledShader, fragment: CompiledShader) -> Seq<CallView> {
    seq![
        CallView::DeleteShader { shader: vertex.handle },
        CallView::DeleteShader { shader: fragment.handle },
    ]
}

/// What the next turn of a link comes to, given where it stands and what the
/// driver answered.
///
/// Once the driver has said whether the link succeeded, the two shader
/// objects are of no more use: the turn that ends the link deletes both,
/// whichever way it went. A reply of a kind the phase does not wait for ends
/// the link with [`RenderError::UnexpectedReply`] and issues nothing.
pub open spec fn link_model(
    vertex: CompiledShader,
    fragment: CompiledShader,
    phase: LinkPhase,
    reply: ReplyView,
) -> Planned<LinkPhase, Result<ShaderProgram, ErrorView>> {
    match (phase, reply) {
        (LinkPhase::Start, _) => Planned {
            phase: LinkPhase::AwaitProgram,
            calls: seq![CallView::CreateProgram],
            result: None,
        },
        (LinkPhase::AwaitProgram, ReplyView::Created(program)) => Planned {
            phase: LinkPhase::AwaitStatus { program },
            calls: seq![
                CallView::AttachShader { program, shader: vertex.handle },
                CallView::AttachShader { program, shader: fragment.handle },
                CallView::LinkProgram { program },
                CallView::GetProgramLinkStatus { program },
            ],
            result: None,
        },
        (LinkPhase::AwaitStatus { program }, ReplyView::Status(true)) => Planned {
            phase: LinkPhase::Finished,
            calls: delete_calls(vertex, fragment),
            result: Some(Ok(ShaderProgram { handle: program })),
        },
        (LinkPhase::AwaitStatus { program }, ReplyView::Status(false)) => Planned {
            phase: LinkPhase::AwaitLog { program },
            calls: seq![CallView::GetProgramInfoLog { program }],
            result: None,
        },
        (LinkPhase::AwaitLog { program }, ReplyView::Log(text)) => Planned {
            phase: LinkPhase::Finished,
            calls: delete_calls(vertex, fragment),
            result: Some(Err(ErrorView::ProgramLink { log: text })),
        },
        _ => Planned {
            phase: LinkPhase::Finished,
            calls: seq![],
            result: Some(Err(ErrorView::UnexpectedReply)),
        },
    }
}

/// Takes the linking of `vertex` and `fragment` one turn further.
///
/// Start with [`LinkPhase::Start`] and any reply. Linking binds nothing.
pub fn link_program(
    ctx: &mut RenderContext,
    vertex: CompiledShader,
    fragment: CompiledShader,
    phase: &mut LinkPhase,
    reply: GpuReply,
) -> (turn: Turn<Result<ShaderProgram, RenderError>>)
    ensures
        *final(phase) == link_model(vertex, fragment, *old(phase), reply@).phase,
        view_all(turn.calls@) == link_model(vertex, fragment, *old(phase), reply@).calls,
        result_view(turn.result) == link_model(vertex, fragment, *old(phase), reply@).result,
        *final(ctx) == *old(ctx),
        *final(ctx) == old(ctx).after_all(view_all(turn.calls@)),
{
    let ghost base = *ctx;
    let mut calls: Vec<GpuCall> = Vec::new();
    assert(view_all(calls@) =~= Seq::<CallView>::empty());
    let mut result: Option<Result<ShaderProgram, RenderError>> = None;
    match (*phase, reply) {
        (LinkPhase::Start, _) => {
            issue(ctx, &mut calls, GpuCall::CreateProgram, Ghost(base));
            *phase = LinkPhase::AwaitProgram;
        },
        (LinkPhase::AwaitProgram, GpuReply::Created(program)) => {
            issue(
                ctx,
                &mut calls,
                GpuCall::AttachShader { program, shader: vertex.handle },
                Ghost(base),
            );
            issue(
                ctx,
                &mut calls,
                GpuCall::AttachShader { program, shader: fragment.handle },
                Ghost(base),
            );
            issue(ctx, &mut calls, GpuCall::LinkProgram { program }, Ghost(base));
            issue(ctx, &mut calls, GpuCall::GetProgramLinkStatus { program }, Ghost(base));
            *phase = LinkPhase::AwaitStatus { program };
        },
        (LinkPhase::AwaitStatus { program }, GpuReply::Status(true)) => {
            issue(ctx, &mut calls, GpuCall::DeleteShader { shader: vertex.handle }, Ghost(base));
            issue(ctx, &mut calls, GpuCall::DeleteShader { shader: fragment.handle }, Ghost(base));
            result = Some(Ok(ShaderProgram { handle: program }));
            *phase = LinkPhase::Finished;
        },
        (LinkPhase::AwaitStatus { program }, GpuReply::Status(false)) => {
            issue(ctx, &mut calls, GpuCall::GetProgramInfoLog { program }, Ghost(base));
            *phase = LinkPhase::AwaitLog { program };
        },
        (LinkPhase::AwaitLog { program }, GpuReply::Log(text)) => {
            issue(ctx, &mut calls, GpuCall::DeleteShader { shader: vertex.handle }, Ghost(base));
            issue(ctx, &mut calls, GpuCall::DeleteShader { shader: fragment.handle }, Ghost(base));
            result = Some(Err(RenderError::ProgramLink { log: text }));
            *phase = LinkPhase::Finished;
        },
        _ => {
            result = Some(Err(RenderError::UnexpectedReply));
            *phase = LinkPhase::Finished;
        },
    }
    assert(view_all(calls@) =~= link_model(vertex, fragment, *old(phase), reply@).calls);
    Turn { calls, result }
}

/// The calls a link issues up to and with the status query.
pub open spec fn link_calls(
    vertex: CompiledShader,
    fragment: CompiledShader,
    program: Handle,
) -> Seq<CallView> {
    seq![
        CallView::CreateProgram,
        CallView::AttachShader { program, shader: vertex.handle },
        CallView::AttachShader { program, shader: fragment.handle },
        CallView::LinkProgram { program },
        CallView::GetProgramLinkStatus { program },
    ]
}

/// No call of `calls` before the last two deletes a shader object, and
/// the last two delete `vertex` and `fragment`, in that order.
pub open spec fn deletes_both_once_at_end(
    calls: Seq<CallView>,
    vertex: CompiledShader,
    fragment: CompiledShader,
) -> bool {
    &&& calls.len() >= 2
    &&& calls[calls.len() - 2] == CallView::DeleteShader { shader: vertex.handle }
    &&& calls[calls.len() - 1] == CallView::DeleteShader { shader: fragment.handle }
    &&& forall|i: int| 0 <= i < calls.len() - 2 ==> !(#[trigger] calls[i] is DeleteShader)
}

/// A pair the driver's linker accepts links to the program object the driver
/// made: the exchange is the five calls of [`link_calls`] and then the two
/// deletions, no log is asked for, and the result is that program.
pub proof fn lemma_accepted_pair_links(
    vertex: CompiledShader,
    fragment: CompiledShader,
    program: Handle,
)
    ensures
        ({
            let first = link_model(vertex, fragment, LinkPhase::Start, ReplyView::Nothing);
            let second = link_model(vertex, fragment, first.phase, ReplyView::Created(program));
            let third = link_model(vertex, fragment, second.phase, ReplyView::Status(true));
            let all = first.calls + second.calls + third.calls;
            &&& first.result is None
            &&& second.result is None
            &&& all == link_calls(vertex, fragment, program) + delete_calls(vertex, fragment)
            &&& deletes_both_once_at_end(all, vertex, fragment)
            &&& third.result == Some(
                Ok::<ShaderProgram, ErrorView>(ShaderProgram { handle: program }),
            )
            &&& third.phase == LinkPhase::Finished
        }),
{
    let first = link_model(vertex, fragment, LinkPhase::Start, ReplyView::Nothing);
    let second = link_model(vertex, fragment, first.phase, ReplyView::Created(program));
    let third = link_model(vertex, fragment, second.phase, ReplyView::Status(true));
    let all = first.calls + second.calls + third.calls;
    assert(all =~= link_calls(vertex, fragment, program) + delete_calls(vertex, fragment));
}

/// A pair the driver's linker rejects ends in an error that carries the
/// driver's log as it came, and both shader objects are deleted all the same:
/// after the five calls of [`link_calls`] the log is asked for, then come the
/// two deletions.
pub proof fn lemma_rejected_pair_fails(
    vertex: CompiledShader,
    fragment: CompiledShader,
    program: Handle,
    log: Seq<char>,
)
    ensures
        ({
            let first = link_model(vertex, fragment, LinkPhase::Start, ReplyView::Nothing);
            let second = link_model(vertex, fragment, first.phase, ReplyView::Created(program));
            let third = link_model(vertex, fragment, second.phase, ReplyView::Status(false));
            let fourth = link_model(vertex, fragment, third.phase, ReplyView::Log(log));
            let all = first.calls + second.calls + third.calls + fourth.calls;
            &&& first.result is None
            &&& second.result is None
            &&& third.result is None
            &&& all == link_calls(vertex, fragment, program).push(
                CallView::GetProgramInfoLog { program },
            ) + delete_calls(vertex, fragment)
            &&& deletes_both_once_at_end(all, vertex, fragment)
            &&& fourth.result == Some(
                Err::<ShaderProgram, ErrorView>(ErrorView::ProgramLink { log }),
            )
            &&& fourth.phase == LinkPhase::Finished
        }),
{
    let first = link_model(vertex, fragment, LinkPhase::Start, ReplyView::Nothing);
    let second = link_model(vertex, fragment, first.phase, ReplyView::Created(program));
    let third = link_model(vertex, fragment, second.phase, ReplyView::Status(false));
    let fourth = link_model(vertex, fragment, third.phase, ReplyView::Log(log));
    let all = first.calls + second.calls + third.calls + fourth.calls;
    assert(all =~= link_calls(vertex, fragment, program).push(
        CallView::GetProgramInfoLog { program },
    ) + delete_calls(vertex, fragment));
}

/// A link ends with a program exactly when the driver reports success: no
/// turn yields a program but the one that takes a true status, and that turn
/// yields the program whose status was asked for. A turn hands out a result
/// exactly when it ends the link.
pub proof fn lemma_linked_iff_status(
    vertex: CompiledShader,
    fragment: CompiledShader,
    phase: LinkPhase,
    reply: ReplyView,
)
    ensures
        link_model(vertex, fragment, phase, reply).result matches Some(Ok(linked)) <==> phase
            is AwaitStatus && reply == ReplyView::Status(true),
        link_model(vertex, fragment, phase, reply).result matches Some(Ok(linked)) ==> phase
            == (LinkPhase::AwaitStatus { program: linked.handle }),
        link_model(vertex, fragment, phase, reply).result is Some <==> link_model(
            vertex,
            fragment,
            phase,
            reply,
        ).phase == LinkPhase::Finished,
{
}

} // verus!
