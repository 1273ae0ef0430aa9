//! Setting the pipeline up: the background colour, the two shaders, the
//! program, the mesh and the texture, one after the other, ending at the
//! first failure.

use vstd::prelude::*;
use crate::context::{chain, lemma_after_all_concat, lemma_untouched, RenderContext};
use crate::error::{result_view, ErrorView, RenderError};
use crate::frame::{background_call, set_background, Scene};
use crate::gpu::{view_all, CallView, GpuCall, GpuReply, Planned, ReplyView, Turn};
use crate::handle::Handle;
use crate::mesh::{
    lemma_upload_leaves_bound, upload_calls, upload_mesh, upload_model, MeshBuffer, MeshView,
    UploadPhase, UploadedMesh,
};
use crate::shader::{
    compile_calls, compile_model, compile_shader, delete_calls, link_calls, link_model,
    link_program, CompilePhase, CompiledShader, LinkPhase, ShaderProgram, ShaderSource,
    SourceView,
};
use crate::texture::{
    lemma_texture_leaves_bound, texture_calls, texture_model, upload_texture, DecodedImage,
    ImageView, Texture, TexturePhase,
};

verus! {

/// Everything the pipeline is made from: the shader pair, the mesh, and the
/// texture image if the pipeline samples one.
#[derive(Debug)]
pub struct PipelineDescription {
    /// The source of the vertex stage.
    pub vertex_shader: ShaderSource,
    /// The source of the fragment stage.
    pub fragment_shader: ShaderSource,
    /// The mesh to draw.
    pub mesh: MeshBuffer,
    /// The image to sample, if any.
    pub texture: Option<DecodedImage>,
}

/// What a [`PipelineDescription`] is, each part by its view.
pub ghost struct DescriptionView {
    pub vertex_shader: SourceView,
    pub fragment_shader: SourceView,
    pub mesh: MeshView,
    pub texture: Option<ImageView>,
}

impl View for PipelineDescription {
    type V = DescriptionView;

    open spec fn view(&self) -> DescriptionView {
        DescriptionView {
            vertex_shader: self.vertex_shader@,
            fragment_shader: self.fragment_shader@,
            mesh: self.mesh@,
            texture: match self.texture {
                Some(image) => Some(image@),
                None => None,
            },
        }
    }
}

/// How far the setup has come: which part is being made, what was made
/// before it, and how far the making of the part has come.
#[derive(Clone, Copy, Debug, PartialEq, Eq)]
pub enum SetupPhase {
    /// Nothing issued yet.
    Start,
    /// The vertex shader is being compiled.
    VertexShader { compile: CompilePhase },
    /// The fragment shader is being compiled.
    FragmentShader { vertex: CompiledShader, compile: CompilePhase },
    /// The program is being linked.
    Program { vertex: CompiledShader, fragment: CompiledShader, link: LinkPhase },
    /// The mesh is being uploaded.
    Mesh { program: ShaderProgram, upload: UploadPhase },
    /// The texture is being uploaded.
    Texture { program: ShaderProgram, mesh: UploadedMesh, texture: TexturePhase },
    /// The setup has ended.
    Finished,
}

/// The turn that ends the setup with `error`, after the calls `issued`.
pub open spec fn setup_failed(issued: Seq<CallView>, error: ErrorView) -> Planned<
    SetupPhase,
    Result<Scene, ErrorView>,
> {
    Planned { phase: SetupPhase::Finished, calls: issued, result: Some(Err(error)) }
}

/// The turn that ends the setup with `scene`, after the calls `issued`.
pub open spec fn setup_done(issued: Seq<CallView>, scene: Scene) -> Planned<
    SetupPhase,
    Result<Scene, ErrorView>,
> {
    Planned { phase: SetupPhase::Finished, calls: issued, result: Some(Ok(scene)) }
}

/// The turn that, after the calls `issued`, goes on to compile `source` as
/// the vertex shader.
pub open spec fn begin_vertex(source: SourceView, issued: Seq<CallView>) -> Planned<
    SetupPhase,
    Result<Scene, ErrorView>,
> {
    let next = compile_model(source, CompilePhase::Start, ReplyView::Nothing);
    Planned {
        phase: SetupPhase::VertexShader { compile: next.phase },
        calls: issued + next.calls,
        result: None,
    }
}

/// The turn that, after the calls `issued`, goes on to compile `source` as
/// the fragment shader.
pub open spec fn begin_fragment(
    source: SourceView,
    vertex: CompiledShader,
    issued: Seq<CallView>,
) -> Planned<SetupPhase, Result<Scene, ErrorView>> {
    let next = compile_model(source, CompilePhase::Start, ReplyView::Nothing);
    Planned {
        phase: SetupPhase::FragmentShader { vertex, compile: next.phase },
        calls: issued + next.calls,
        result: None,
    }
}

/// The turn that, after the calls `issued`, goes on to link the two shaders.
pub open spec fn begin_program(
    vertex: CompiledShader,
    fragment: CompiledShader,
    issued: Seq<CallView>,
) -> Planned<SetupPhase, Result<Scene, ErrorView>> {
    let next = link_model(vertex, fragment, LinkPhase::Start, ReplyView::Nothing);
    Planned {
        phase: SetupPhase::Program { vertex, fragment, link: next.phase },
        calls: issued + next.calls,
        result: None,
    }
}

/// The turn that, after the calls `issued`, goes on to upload the mesh.
pub open spec fn begin_mesh(mesh: MeshView, program: ShaderProgram, issued: Seq<CallView>) -> Planned<
    SetupPhase,
    Result<Scene, ErrorView>,
> {
    let next = upload_model(mesh, UploadPhase::Start, ReplyView::Nothing);
    Planned {
        phase: SetupPhase::Mesh { program, upload: next.phase },
        calls: issued + next.calls,
        result: None,
    }
}

/// The turn that, after the calls `issued`, goes on to upload the texture
/// or, where the pipeline has none, ends the setup.
pub open spec fn begin_texture(
    texture: Option<ImageView>,
    program: ShaderProgram,
    mesh: UploadedMesh,
    issued: Seq<CallView>,
) -> Planned<SetupPhase, Result<Scene, ErrorView>> {
    match texture {
        Some(image) => {
            let next = texture_model(image, TexturePhase::Start, ReplyView::Nothing);
            Planned {
                phase: SetupPhase::Texture { program, mesh, texture: next.phase },
                calls: issued + next.calls,
                result: None,
            }
        },
        None => setup_done(issued, Scene { program, mesh, texture: None }),
    }
}

/// What the next turn of the setup comes to, given where it stands and what
/// the driver answered.
///
/// Each part is made by its own operation. When a part is made, the same
/// turn begins the next one; when a part fails, the setup ends with that
/// part's error and issues nothing beyond that part's own calls. A turn
/// asked of a setup that has ended is an [`RenderError::UnexpectedReply`].
pub open spec fn setup_model(desc: DescriptionView, phase: SetupPhase, reply: ReplyView) -> Planned<
    SetupPhase,
    Result<Scene, ErrorView>,
> {
    match phase {
        SetupPhase::Start => begin_vertex(desc.vertex_shader, seq![background_call()]),
        SetupPhase::VertexShader { compile } => {
            let turn = compile_model(desc.vertex_shader, compile, reply);
            match turn.result {
                None => Planned {
                    phase: SetupPhase::VertexShader { compile: turn.phase },
                    calls: turn.calls,
                    result: None,
                },
                Some(Ok(vertex)) => begin_fragment(desc.fragment_shader, vertex, turn.calls),
                Some(Err(error)) => setup_failed(turn.calls, error),
            }
        },
        SetupPhase::FragmentShader { vertex, compile } => {
            let turn = compile_model(desc.fragment_shader, compile, reply);
            match turn.result {
                None => Planned {
                    phase: SetupPhase::FragmentShader { vertex, compile: turn.phase },
                    calls: turn.calls,
                    result: None,
                },
                Some(Ok(fragment)) => begin_program(vertex, fragment, turn.calls),
                Some(Err(error)) => setup_failed(turn.calls, error),
            }
        },
        SetupPhase::Program { vertex, fragment, link } => {
            let turn = link_model(vertex, fragment, link, reply);
            match turn.result {
                None => Planned {
                    phase: SetupPhase::Program { vertex, fragment, link: turn.phase },
                    calls: turn.calls,
                    result: None,
                },
                Some(Ok(program)) => begin_mesh(desc.mesh, program, turn.calls),
                Some(Err(error)) => setup_failed(turn.calls, error),
            }
        },
        SetupPhase::Mesh { program, upload } => {
            let turn = upload_model(desc.mesh, upload, reply);
            match turn.result {
                None => Planned {
                    phase: SetupPhase::Mesh { program, upload: turn.phase },
                    calls: turn.calls,
                    result: None,
                },
                Some(Ok(mesh)) => begin_texture(desc.texture, program, mesh, turn.calls),
                Some(Err(error)) => setup_failed(turn.calls, error),
            }
        },
        SetupPhase::Texture { program, mesh, texture } => match desc.texture {
            Some(image) => {
                let turn = texture_model(image, texture, reply);
                match turn.result {
                    None => Planned {
                        phase: SetupPhase::Texture { program, mesh, texture: turn.phase },
                        calls: turn.calls,
                        result: None,
                    },
                    Some(Ok(uploaded)) => setup_done(
                        turn.calls,
                        Scene { program, mesh, texture: Some(uploaded) },
                    ),
                    Some(Err(error)) => setup_failed(turn.calls, error),
                }
            },
            None => setup_failed(seq![], ErrorView::UnexpectedReply),
        },
        SetupPhase::Finished => setup_failed(seq![], ErrorView::UnexpectedReply),
    }
}

/// Takes the setup of the pipeline one turn further.
///
/// Start with [`SetupPhase::Start`] and any reply. `ctx` follows the calls
/// issued.
pub fn set_up(
    ctx: &mut RenderContext,
    desc: &PipelineDescription,
    phase: &mut SetupPhase,
    reply: GpuReply,
) -> (turn: Turn<Result<Scene, RenderError>>)
    ensures
        *final(phase) == setup_model(desc@, *old(phase), reply@).phase,
        view_all(turn.calls@) == setup_model(desc@, *old(phase), reply@).calls,
        result_view(turn.result) == setup_model(desc@, *old(phase), reply@).result,
        *final(ctx) == old(ctx).after_all(view_all(turn.calls@)),
{
    let ghost base = *ctx;
    match *phase {
        SetupPhase::Start => {
            let first = set_background(ctx);
            let mut compile = CompilePhase::Start;
            let next = compile_shader(ctx, &desc.vertex_shader, &mut compile, GpuReply::Nothing);
            *phase = SetupPhase::VertexShader { compile };
            Turn { calls: chain(ctx, first, next.calls, Ghost(base)), result: None }
        },
        SetupPhase::VertexShader { compile } => {
            let mut compile = compile;
            let turn = compile_shader(ctx, &desc.vertex_shader, &mut compile, reply);
            match turn.result {
                None => {
                    *phase = SetupPhase::VertexShader { compile };
                    Turn { calls: turn.calls, result: None }
                },
                Some(Ok(vertex)) => {
                    let mut compile = CompilePhase::Start;
                    let next = compile_shader(
                        ctx,
                        &desc.fragment_shader,
                        &mut compile,
                        GpuReply::Nothing,
                    );
                    *phase = SetupPhase::FragmentShader { vertex, compile };
                    Turn { calls: chain(ctx, turn.calls, next.calls, Ghost(base)), result: None }
                },
                Some(Err(error)) => {
                    *phase = SetupPhase::Finished;
                    Turn { calls: turn.calls, result: Some(Err(error)) }
                },
            }
        },
        SetupPhase::FragmentShader { vertex, compile } => {
            let mut compile = compile;
            let turn = compile_shader(ctx, &desc.fragment_shader, &mut compile, reply);
            match turn.result {
                None => {
                    *phase = SetupPhase::FragmentShader { vertex, compile };
                    Turn { calls: turn.calls, result: None }
                },
                Some(Ok(fragment)) => {
                    let mut link = LinkPhase::Start;
                    let next = link_program(ctx, vertex, fragment, &mut link, GpuReply::Nothing);
                    *phase = SetupPhase::Program { vertex, fragment, link };
                    Turn { calls: chain(ctx, turn.calls, next.calls, Ghost(base)), result: None }
                },
                Some(Err(error)) => {
                    *phase = SetupPhase::Finished;
                    Turn { calls: turn.calls, result: Some(Err(error)) }
                },
            }
        },
        SetupPhase::Program { vertex, fragment, link } => {
            let mut link = link;
            let turn = link_program(ctx, vertex, fragment, &mut link, reply);
            match turn.result {
                None => {
                    *phase = SetupPhase::Program { vertex, fragment, link };
                    Turn { calls: turn.calls, result: None }
                },
                Some(Ok(program)) => {
                    let mut upload = UploadPhase::Start;
                    let next = upload_mesh(ctx, &desc.mesh, &mut upload, GpuReply::Nothing);
                    *phase = SetupPhase::Mesh { program, upload };
                    Turn { calls: chain(ctx, turn.calls, next.calls, Ghost(base)), result: None }
                },
                Some(Err(error)) => {
                    *phase = SetupPhase::Finished;
                    Turn { calls: turn.calls, result: Some(Err(error)) }
                },
            }
        },
        SetupPhase::Mesh { program, upload } => {
            let mut upload = upload;
            let turn = upload_mesh(ctx, &desc.mesh, &mut upload, reply);
            match turn.result {
                None => {
                    *phase = SetupPhase::Mesh { program, upload };
                    Turn { calls: turn.calls, result: None }
                },
                Some(Ok(mesh)) => match &desc.texture {
                    Some(image) => {
                        let mut texture = TexturePhase::Start;
                        let next = upload_texture(ctx, image, &mut texture, GpuReply::Nothing);
                        *phase = SetupPhase::Texture { program, mesh, texture };
                        Turn {
                            calls: chain(ctx, turn.calls, next.calls, Ghost(base)),
                            result: None,
                        }
                    },
                    None => {
                        *phase = SetupPhase::Finished;
                        Turn {
                            calls: turn.calls,
                            result: Some(Ok(Scene { program, mesh, texture: None })),
                        }
                    },
                },
                Some(Err(error)) => {
                    *phase = SetupPhase::Finished;
                    Turn { calls: turn.calls, result: Some(Err(error)) }
                },
            }
        },
        SetupPhase::Texture { program, mesh, texture } => match &desc.texture {
            Some(image) => {
                let mut texture = texture;
                let turn = upload_texture(ctx, image, &mut texture, reply);
                match turn.result {
                    None => {
                        *phase = SetupPhase::Texture { program, mesh, texture };
                        Turn { calls: turn.calls, result: None }
                    },
                    Some(Ok(uploaded)) => {
                        *phase = SetupPhase::Finished;
                        Turn {
                            calls: turn.calls,
                            result: Some(Ok(Scene { program, mesh, texture: Some(uploaded) })),
                        }
                    },
                    Some(Err(error)) => {
                        *phase = SetupPhase::Finished;
                        Turn { calls: turn.calls, result: Some(Err(error)) }
                    },
                }
            },
            None => {
                *phase = SetupPhase::Finished;
                let calls: Vec<GpuCall> = Vec::new();
                assert(view_all(calls@) =~= Seq::<CallView>::empty());
                Turn { calls, result: Some(Err(RenderError::UnexpectedReply)) }
            },
        },
        SetupPhase::Finished => {
            let calls: Vec<GpuCall> = Vec::new();
            assert(view_all(calls@) =~= Seq::<CallView>::empty());
            Turn { calls, result: Some(Err(RenderError::UnexpectedReply)) }
        },
    }
}

/// What the setup has come to once the driver has given `replies`, in order:
/// the calls of every turn so far, and the result if the setup has ended.
/// The first turn takes no reply; replies after the end are not looked at.
pub open spec fn setup_run(desc: DescriptionView, replies: Seq<ReplyView>) -> Planned<
    SetupPhase,
    Result<Scene, ErrorView>,
>
    decreases replies.len(),
{
    if replies.len() == 0 {
        setup_model(desc, SetupPhase::Start, ReplyView::Nothing)
    } else {
        let before = setup_run(desc, replies.drop_last());
        if before.result is Some {
            before
        } else {
            let turn = setup_model(desc, before.phase, replies.last());
            Planned { phase: turn.phase, calls: before.calls + turn.calls, result: turn.result }
        }
    }
}

/// The objects the driver makes for a setup that goes through.
pub ghost struct MadeObjects {
    pub vertex_shader: Handle,
    pub fragment_shader: Handle,
    pub program: Handle,
    pub vertex_array: Handle,
    pub buffer: Handle,
}

/// The replies of a driver that accepts both shaders and the program, up to
/// the end of the mesh upload.
pub open spec fn accepting_replies(made: MadeObjects) -> Seq<ReplyView> {
    seq![
        ReplyView::Created(made.vertex_shader),
        ReplyView::Status(true),
        ReplyView::Created(made.fragment_shader),
        ReplyView::Status(true),
        ReplyView::Created(made.program),
        ReplyView::Status(true),
        ReplyView::Created(made.vertex_array),
        ReplyView::Created(made.buffer),
    ]
}

/// The vertex shader a setup that goes through compiles.
pub open spec fn made_vertex(desc: DescriptionView, made: MadeObjects) -> CompiledShader {
    CompiledShader { handle: made.vertex_shader, stage: desc.vertex_shader.stage }
}

/// The fragment shader a setup that goes through compiles.
pub open spec fn made_fragment(desc: DescriptionView, made: MadeObjects) -> CompiledShader {
    CompiledShader { handle: made.fragment_shader, stage: desc.fragment_shader.stage }
}

/// The mesh a setup that goes through uploads.
pub open spec fn made_mesh(desc: DescriptionView, made: MadeObjects) -> UploadedMesh {
    UploadedMesh {
        vertex_array: made.vertex_array,
        buffer: made.buffer,
        vertex_count: desc.mesh.vertex_count() as i32,
    }
}

/// Every call of a setup that goes through, up to the end of the mesh
/// upload: the background colour, the two compilations, the link with its
/// two deletions, and the upload.
pub open spec fn setup_calls(desc: DescriptionView, made: MadeObjects) -> Seq<CallView> {
    seq![background_call()] + compile_calls(desc.vertex_shader, made.vertex_shader)
        + compile_calls(desc.fragment_shader, made.fragment_shader) + link_calls(
        made_vertex(desc, made),
        made_fragment(desc, made),
        made.program,
    ) + delete_calls(made_vertex(desc, made), made_fragment(desc, made)) + upload_calls(
        desc.mesh,
        made.vertex_array,
        made.buffer,
    )
}

/// What [`setup_run`] comes to, one accepting reply after the other.
proof fn lemma_accepted_prefix(desc: DescriptionView, made: MadeObjects)
    ensures
        ({
            let run = setup_run(desc, accepting_replies(made).drop_last());
            &&& run.result is None
            &&& run.phase == SetupPhase::Mesh {
                program: ShaderProgram { handle: made.program },
                upload: UploadPhase::AwaitBuffer { vertex_array: made.vertex_array },
            }
            &&& run.calls + upload_model(
                desc.mesh,
                UploadPhase::AwaitBuffer { vertex_array: made.vertex_array },
                ReplyView::Created(made.buffer),
            ).calls == setup_calls(desc, made)
        }),
{
    let none = Seq::<ReplyView>::empty();
    let r1 = none.push(ReplyView::Created(made.vertex_shader));
    let r2 = r1.push(ReplyView::Status(true));
    let r3 = r2.push(ReplyView::Created(made.fragment_shader));
    let r4 = r3.push(ReplyView::Status(true));
    let r5 = r4.push(ReplyView::Created(made.program));
    let r6 = r5.push(ReplyView::Status(true));
    let r7 = r6.push(ReplyView::Created(made.vertex_array));
    assert(r1.drop_last() =~= none);
    assert(r2.drop_last() =~= r1);
    assert(r3.drop_last() =~= r2);
    assert(r4.drop_last() =~= r3);
    assert(r5.drop_last() =~= r4);
    assert(r6.drop_last() =~= r5);
    assert(r7.drop_last() =~= r6);
    assert(accepting_replies(made).drop_last() =~= r7);
    let s0 = setup_run(desc, none);
    let s1 = setup_run(desc, r1);
    let s2 = setup_run(desc, r2);
    let s3 = setup_run(desc, r3);
    let s4 = setup_run(desc, r4);
    let s5 = setup_run(desc, r5);
    let s6 = setup_run(desc, r6);
    let s7 = setup_run(desc, r7);
    assert(s0.result is None);
    assert(s1.result is None);
    assert(s2.result is None);
    assert(s3.result is None);
    assert(s4.result is None);
    assert(s5.result is None);
    assert(s6.result is None);
    assert(s7.result is None);
    assert(s7.calls + upload_model(
        desc.mesh,
        UploadPhase::AwaitBuffer { vertex_array: made.vertex_array },
        ReplyView::Created(made.buffer),
    ).calls =~= setup_calls(desc, made));
}

/// A pipeline without a texture, on a driver that accepts both shaders and
/// the program, is set up by the calls of [`setup_calls`] and nothing more,
/// and the scene holds what the driver made.
pub proof fn lemma_setup_without_texture(desc: DescriptionView, made: MadeObjects)
    requires
        desc.texture is None,
    ensures
        setup_run(desc, accepting_replies(made)) == setup_done(
            setup_calls(desc, made),
            Scene {
                program: ShaderProgram { handle: made.program },
                mesh: made_mesh(desc, made),
                texture: None,
            },
        ),
{
    lemma_accepted_prefix(desc, made);
}

/// A pipeline with a texture goes on from there: it asks for the texture
/// object and uploads the image, and the scene holds the texture as well.
pub proof fn lemma_setup_with_texture(desc: DescriptionView, made: MadeObjects, texture: Handle)
    requires
        desc.texture is Some,
    ensures
        setup_run(desc, accepting_replies(made).push(ReplyView::Created(texture))) == setup_done(
            setup_calls(desc, made) + seq![CallView::CreateTexture] + texture_calls(
                desc.texture->0,
                texture,
            ),
            Scene {
                program: ShaderProgram { handle: made.program },
                mesh: made_mesh(desc, made),
                texture: Some(
                    Texture {
                        handle: texture,
                        width: desc.texture->0.width,
                        height: desc.texture->0.height,
                    },
                ),
            },
        ),
{
    lemma_accepted_prefix(desc, made);
    let replies = accepting_replies(made).push(ReplyView::Created(texture));
    assert(replies.drop_last() =~= accepting_replies(made));
    let before = setup_run(desc, accepting_replies(made));
    assert(before.result is None);
    let run = setup_run(desc, replies);
    assert(run.calls =~= setup_calls(desc, made) + seq![CallView::CreateTexture] + texture_calls(
        desc.texture->0,
        texture,
    ));
}

/// The setup ends at the first failure: when the part being made ends in an
/// error, the setup ends in the same error in the same turn, issues that
/// part's calls and no others, and makes no further part.
pub proof fn lemma_setup_fails_fast(desc: DescriptionView, phase: SetupPhase, reply: ReplyView)
    ensures
        phase matches SetupPhase::VertexShader { compile } ==> (compile_model(
            desc.vertex_shader,
            compile,
            reply,
        ).result matches Some(Err(error)) ==> setup_model(desc, phase, reply) == setup_failed(
            compile_model(desc.vertex_shader, compile, reply).calls,
            error,
        )),
        phase matches SetupPhase::FragmentShader { compile, .. } ==> (compile_model(
            desc.fragment_shader,
            compile,
            reply,
        ).result matches Some(Err(error)) ==> setup_model(desc, phase, reply) == setup_failed(
            compile_model(desc.fragment_shader, compile, reply).calls,
            error,
        )),
        phase matches SetupPhase::Program { vertex, fragment, link } ==> (link_model(
            vertex,
            fragment,
            link,
            reply,
        ).result matches Some(Err(error)) ==> setup_model(desc, phase, reply) == setup_failed(
            link_model(vertex, fragment, link, reply).calls,
            error,
        )),
        phase matches SetupPhase::Mesh { upload, .. } ==> (upload_model(
            desc.mesh,
            upload,
            reply,
        ).result matches Some(Err(error)) ==> setup_model(desc, phase, reply) == setup_failed(
            upload_model(desc.mesh, upload, reply).calls,
            error,
        )),
        phase matches SetupPhase::Texture { texture, .. } ==> (desc.texture is Some
            ==> (texture_model(desc.texture->0, texture, reply).result matches Some(Err(error))
            ==> setup_model(desc, phase, reply) == setup_failed(
            texture_model(desc.texture->0, texture, reply).calls,
            error,
        ))),
        setup_model(desc, phase, reply).result is Some <==> setup_model(desc, phase, reply).phase
            == SetupPhase::Finished,
{
}

/// When a setup has gone through, the mesh's vertex array and buffer are
/// bound and no program is made current by it; where the pipeline has a
/// texture and the first texture unit was active, the texture is bound to
/// that unit. No other binding changes.
pub proof fn lemma_setup_leaves_bound(
    ctx: RenderContext,
    desc: DescriptionView,
    made: MadeObjects,
    texture: Handle,
)
    ensures
        ctx.after_all(setup_calls(desc, made)) == (RenderContext {
            vertex_array: Some(made.vertex_array),
            array_buffer: Some(made.buffer),
            ..ctx
        }),
        desc.texture is Some && ctx.active_unit == crate::codes::TEXTURE0 ==> ctx.after_all(
            setup_calls(desc, made) + seq![CallView::CreateTexture] + texture_calls(
                desc.texture->0,
                texture,
            ),
        ) == (RenderContext {
            vertex_array: Some(made.vertex_array),
            array_buffer: Some(made.buffer),
            first_unit_texture: Some(texture),
            ..ctx
        }),
{
    let quiet = seq![background_call()] + compile_calls(desc.vertex_shader, made.vertex_shader)
        + compile_calls(desc.fragment_shader, made.fragment_shader) + link_calls(
        made_vertex(desc, made),
        made_fragment(desc, made),
        made.program,
    ) + delete_calls(made_vertex(desc, made), made_fragment(desc, made));
    let upload = upload_calls(desc.mesh, made.vertex_array, made.buffer);
    lemma_untouched(ctx, quiet);
    lemma_after_all_concat(ctx, quiet, upload);
    lemma_upload_leaves_bound(ctx, desc.mesh, made.vertex_array, made.buffer);
    if desc.texture is Some && ctx.active_unit == crate::codes::TEXTURE0 {
        let bound = ctx.after_all(setup_calls(desc, made));
        let more = seq![CallView::CreateTexture] + texture_calls(desc.texture->0, texture);
        lemma_after_all_concat(ctx, setup_calls(desc, made), more);
        lemma_texture_leaves_bound(bound, desc.texture->0, texture);
        assert(setup_calls(desc, made) + seq![CallView::CreateTexture] + texture_calls(
            desc.texture->0,
            texture,
        ) =~= setup_calls(desc, made) + more);
    }
}

} // verus!
