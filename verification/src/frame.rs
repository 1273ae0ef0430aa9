//! The frame loop: what one frame draws, how input ends the loop, and the
//! loop's two states.

use vstd::prelude::*;
use crate::codes::{ARRAY_BUFFER, COLOR_BUFFER_BIT, TEXTURE0, TEXTURE_2D, TRIANGLES};
use crate::context::{issue, lemma_after_all_push, RenderContext};
use crate::gpu::{view_all, CallView, GpuCall};
use crate::mesh::UploadedMesh;
use crate::shader::ShaderProgram;
use crate::texture::Texture;

verus! {

/// The bit pattern of the float 0.1, the red of the background.
pub const BACKGROUND_RED: u32 = 0x3DCC_CCCD;

/// The bit pattern of the float 0.2, the green of the background.
pub const BACKGROUND_GREEN: u32 = 0x3E4C_CCCD;

/// The bit pattern of the float 0.3, the blue of the background.
pub const BACKGROUND_BLUE: u32 = 0x3E99_999A;

/// The bit pattern of the float 1.0, the alpha of the background.
pub const BACKGROUND_ALPHA: u32 = 0x3F80_0000;

/// The key code of the escape key, which ends the loop.
pub const KEY_ESCAPE: i32 = 256;

/// The action code of a key going down.
pub const ACTION_PRESS: i32 = 1;

/// Everything a frame draws with. The objects live as long as the process:
/// nothing tears a scene down.
#[derive(Clone, Copy, Debug, PartialEq, Eq)]
pub struct Scene {
    /// The program every frame runs.
    pub program: ShaderProgram,
    /// The mesh every frame draws.
    pub mesh: UploadedMesh,
    /// The texture every frame samples, if the pipeline has one.
    pub texture: Option<Texture>,
}

/// The call that sets the background colour, issued once before the loop.
pub open spec fn background_call() -> CallView {
    CallView::ClearColor {
        red: BACKGROUND_RED,
        green: BACKGROUND_GREEN,
        blue: BACKGROUND_BLUE,
        alpha: BACKGROUND_ALPHA,
    }
}

/// The calls that make a frame sample `texture`: select the first unit and
/// bind the texture to it. A scene without a texture needs none.
pub open spec fn sampling_calls(texture: Option<Texture>) -> Seq<CallView> {
    match texture {
        Some(texture) => seq![
            CallView::ActiveTexture { unit: TEXTURE0 },
            CallView::BindTexture { target: TEXTURE_2D, texture: Some(texture.handle) },
        ],
        None => seq![],
    }
}

/// The call that draws the scene's mesh: every vertex, as a triangle list.
pub open spec fn draw_call(scene: Scene) -> CallView {
    CallView::DrawArrays { mode: TRIANGLES, first: 0, count: scene.mesh.vertex_count }
}

/// The three calls that end a frame: buffer, vertex array and program go
/// back to none, in that order.
pub open spec fn reset_calls() -> Seq<CallView> {
    seq![
        CallView::BindBuffer { target: ARRAY_BUFFER, buffer: None },
        CallView::BindVertexArray { vertex_array: None },
        CallView::UseProgram { current: None },
    ]
}

/// The calls of one frame: clear, use the program, bind the texture if there
/// is one, bind the vertex array, draw, and reset the bindings. The viewport
/// is left as the window made it: no frame sets it.
pub open spec fn frame_calls(scene: Scene) -> Seq<CallView> {
    seq![
        CallView::Clear { mask: COLOR_BUFFER_BIT },
        CallView::UseProgram { current: Some(scene.program.handle) },
    ] + sampling_calls(scene.texture) + seq![
        CallView::BindVertexArray { vertex_array: Some(scene.mesh.vertex_array) },
        draw_call(scene),
    ] + reset_calls()
}

/// Where in [`frame_calls`] the draw call stands.
pub open spec fn draw_index(scene: Scene) -> int {
    if scene.texture is Some {
        5
    } else {
        3
    }
}

/// The call that sets the background colour.
pub fn set_background(ctx: &mut RenderContext) -> (calls: Vec<GpuCall>)
    ensures
        view_all(calls@) == seq![background_call()],
        *final(ctx) == *old(ctx),
        *final(ctx) == old(ctx).after_all(view_all(calls@)),
{
    let ghost base = *ctx;
    let mut calls: Vec<GpuCall> = Vec::new();
    assert(view_all(calls@) =~= Seq::<CallView>::empty());
    issue(
        ctx,
        &mut calls,
        GpuCall::ClearColor {
            red: BACKGROUND_RED,
            green: BACKGROUND_GREEN,
            blue: BACKGROUND_BLUE,
            alpha: BACKGROUND_ALPHA,
        },
        Ghost(base),
    );
    assert(view_all(calls@) =~= seq![background_call()]);
    calls
}

/// The calls that draw one frame of `scene`. Whatever was bound before,
/// buffer, vertex array and program are bound to nothing afterwards.
pub fn render_frame(ctx: &mut RenderContext, scene: &Scene) -> (calls: Vec<GpuCall>)
    ensures
        view_all(calls@) == frame_calls(*scene),
        *final(ctx) == old(ctx).after_all(frame_calls(*scene)),
        final(ctx).array_buffer is None,
        final(ctx).vertex_array is None,
        final(ctx).program is None,
{
    let ghost base = *ctx;
    let mut calls: Vec<GpuCall> = Vec::new();
    assert(view_all(calls@) =~= Seq::<CallView>::empty());
    issue(ctx, &mut calls, GpuCall::Clear { mask: COLOR_BUFFER_BIT }, Ghost(base));
    issue(
        ctx,
        &mut calls,
        GpuCall::UseProgram { current: Some(scene.program.handle) },
        Ghost(base),
    );
    match scene.texture {
        Some(texture) => {
            issue(ctx, &mut calls, GpuCall::ActiveTexture { unit: TEXTURE0 }, Ghost(base));
            issue(
                ctx,
                &mut calls,
                GpuCall::BindTexture { target: TEXTURE_2D, texture: Some(texture.handle) },
                Ghost(base),
            );
        },
        None => {},
    }
    issue(
        ctx,
        &mut calls,
        GpuCall::BindVertexArray { vertex_array: Some(scene.mesh.vertex_array) },
        Ghost(base),
    );
    issue(
        ctx,
        &mut calls,
        GpuCall::DrawArrays { mode: TRIANGLES, first: 0, count: scene.mesh.vertex_count },
        Ghost(base),
    );
    issue(
        ctx,
        &mut calls,
        GpuCall::BindBuffer { target: ARRAY_BUFFER, buffer: None },
        Ghost(base),
    );
    issue(ctx, &mut calls, GpuCall::BindVertexArray { vertex_array: None }, Ghost(base));
    issue(ctx, &mut calls, GpuCall::UseProgram { current: None }, Ghost(base));
    assert(view_all(calls@) =~= frame_calls(*scene));
    calls
}

/// A frame draws exactly once: the call at [`draw_index`] is the
/// [`draw_call`], no other call of the frame draws, and the three calls
/// after it, the last of the frame, are the [`reset_calls`].
pub proof fn lemma_frame_draws_once(scene: Scene)
    ensures
        ({
            let calls = frame_calls(scene);
            let at = draw_index(scene);
            &&& calls.len() == at + 4
            &&& calls[at] == draw_call(scene)
            &&& forall|k: int| 0 <= k < calls.len() ==> ((#[trigger] calls[k]) is DrawArrays <==> k == at)
            &&& calls.skip(at + 1) == reset_calls()
        }),
{
    let calls = frame_calls(scene);
    let at = draw_index(scene);
    assert(calls.skip(at + 1) =~= reset_calls());
}

/// The draw call runs with the scene's program current and the scene's
/// vertex array bound and, where the scene has a texture, with that texture
/// bound to the first unit, whatever was bound when the frame began.
pub proof fn lemma_frame_draws_scene(ctx: RenderContext, scene: Scene)
    ensures
        ({
            let at_draw = ctx.after_all(frame_calls(scene).take(draw_index(scene)));
            &&& at_draw.program == Some(scene.program.handle)
            &&& at_draw.vertex_array == Some(scene.mesh.vertex_array)
            &&& scene.texture matches Some(texture) ==> at_draw.active_unit == TEXTURE0
                && at_draw.first_unit_texture == Some(texture.handle)
        }),
{
    let calls = frame_calls(scene);
    let before = calls.take(draw_index(scene));
    let none = Seq::<CallView>::empty();
    let s1 = none.push(calls[0]);
    let s2 = s1.push(calls[1]);
    lemma_after_all_push(ctx, none, calls[0]);
    lemma_after_all_push(ctx, s1, calls[1]);
    match scene.texture {
        Some(texture) => {
            let s3 = s2.push(calls[2]);
            let s4 = s3.push(calls[3]);
            let s5 = s4.push(calls[4]);
            lemma_after_all_push(ctx, s2, calls[2]);
            lemma_after_all_push(ctx, s3, calls[3]);
            lemma_after_all_push(ctx, s4, calls[4]);
            assert(before =~= s5);
        },
        None => {
            let s3 = s2.push(calls[2]);
            lemma_after_all_push(ctx, s2, calls[2]);
            assert(before =~= s3);
        },
    }
}

/// A frame leaves buffer, vertex array and program bound to nothing, whatever
/// was bound when it began; the active texture unit and its texture are as
/// the frame set them, or as they were where the scene has no texture.
pub proof fn lemma_frame_leaves_unbound(ctx: RenderContext, scene: Scene)
    ensures
        ({
            let after = ctx.after_all(frame_calls(scene));
            &&& after.array_buffer is None
            &&& after.vertex_array is None
            &&& after.program is None
            &&& scene.texture matches Some(texture) ==> after.active_unit == TEXTURE0
                && after.first_unit_texture == Some(texture.handle)
            &&& scene.texture is None ==> after.active_unit == ctx.active_unit
                && after.first_unit_texture == ctx.first_unit_texture
        }),
{
    let calls = frame_calls(scene);
    let at = draw_index(scene);
    let before = calls.take(at);
    lemma_frame_draws_scene(ctx, scene);
    let at_draw = ctx.after_all(before);
    if scene.texture is None {
        let none = Seq::<CallView>::empty();
        let s1 = none.push(calls[0]);
        let s2 = s1.push(calls[1]);
        let s3 = s2.push(calls[2]);
        lemma_after_all_push(ctx, none, calls[0]);
        lemma_after_all_push(ctx, s1, calls[1]);
        lemma_after_all_push(ctx, s2, calls[2]);
        assert(before =~= s3);
    }
    let t1 = before.push(calls[at]);
    let t2 = t1.push(calls[at + 1]);
    let t3 = t2.push(calls[at + 2]);
    let t4 = t3.push(calls[at + 3]);
    lemma_after_all_push(ctx, before, calls[at]);
    lemma_after_all_push(ctx, t1, calls[at + 1]);
    lemma_after_all_push(ctx, t2, calls[at + 2]);
    lemma_after_all_push(ctx, t3, calls[at + 3]);
    assert(t4 =~= calls);
}

/// One input event as the host delivers it.
#[derive(Clone, Copy, Debug, PartialEq, Eq)]
pub enum InputEvent {
    /// A key changed state.
    Key { code: i32, scancode: i32, action: i32, modifiers: i32 },
    /// Anything else.
    Other,
}

impl InputEvent {
    /// Whether the event is the escape key going down.
    pub open spec fn is_exit_press(self) -> bool {
        self matches InputEvent::Key { code, action, .. } && code == KEY_ESCAPE && action
            == ACTION_PRESS
    }
}

/// Whether any of the events is the escape key going down.
pub open spec fn exit_pressed(events: Seq<InputEvent>) -> bool {
    exists|i: int| 0 <= i < events.len() && (#[trigger] events[i]).is_exit_press()
}

/// Handles one event: the escape key going down raises the close flag, and
/// no other event touches it.
pub fn handle_event(close_flag: &mut bool, event: &InputEvent)
    ensures
        *final(close_flag) == (*old(close_flag) || event.is_exit_press()),
{
    match event {
        InputEvent::Key { code, scancode: _, action, modifiers: _ } => {
            if *code == KEY_ESCAPE && *action == ACTION_PRESS {
                *close_flag = true;
            }
        },
        InputEvent::Other => {},
    }
}

/// Handles the events of one poll, first to last.
pub fn handle_events(close_flag: &mut bool, events: &Vec<InputEvent>)
    ensures
        *final(close_flag) == (*old(close_flag) || exit_pressed(events@)),
{
    let mut i: usize = 0;
    while i < events.len()
        invariant
            i <= events.len(),
            *close_flag == (*old(close_flag) || exit_pressed(events@.take(i as int))),
        decreases events.len() - i,
    {
        handle_event(close_flag, &events[i]);
        proof {
            let seen = events@.take(i as int);
            let more = events@.take(i + 1);
            assert(more[i as int] == events@[i as int]);
            if exit_pressed(seen) {
                let k = choose|k: int| 0 <= k < seen.len() && (#[trigger] seen[k]).is_exit_press();
                assert(more[k].is_exit_press());
            }
            if exit_pressed(more) {
                let k = choose|k: int| 0 <= k < more.len() && (#[trigger] more[k]).is_exit_press();
                if k < i {
                    assert(seen[k].is_exit_press());
                }
            }
        }
        i += 1;
    }
    proof {
        assert(events@.take(i as int) =~= events@);
    }
}

/// The two states of the frame loop.
#[derive(Clone, Copy, Debug, PartialEq, Eq, Structural)]
pub enum LoopState {
    /// Frames are drawn.
    Running,
    /// The loop has ended; it stays ended.
    Closing,
}

/// What the host does for one frame, in this order: ask the window to close
/// if `request_close` is set, perform `calls`, and present the frame if
/// `present` is set.
#[derive(Debug, PartialEq, Eq)]
pub struct FramePlan {
    /// Whether to ask the window to close.
    pub request_close: bool,
    /// The calls that draw the frame.
    pub calls: Vec<GpuCall>,
    /// Whether to present what was drawn.
    pub present: bool,
}

/// The frame loop's own account of whether it goes on.
#[derive(Clone, Copy, Debug, PartialEq, Eq)]
pub struct FrameLoop {
    closing: bool,
}

impl FrameLoop {
    /// The loop's close flag: raised once a close was asked for, by the
    /// window or by the exit key.
    pub closed spec fn close_flag(self) -> bool {
        self.closing
    }

    /// The state the loop is in: closing once the close flag is raised.
    pub open spec fn state(self) -> LoopState {
        if self.close_flag() {
            LoopState::Closing
        } else {
            LoopState::Running
        }
    }

    /// A loop that runs.
    pub fn new() -> (r: FrameLoop)
        ensures
            !r.close_flag(),
            r.state() == LoopState::Running,
    {
        FrameLoop { closing: false }
    }

    /// Whether the close flag is raised.
    pub fn is_closing(&self) -> (r: bool)
        ensures
            r == self.close_flag(),
    {
        self.closing
    }

    /// The state the loop is in.
    pub fn current_state(&self) -> (r: LoopState)
        ensures
            r == self.state(),
    {
        if self.closing {
            LoopState::Closing
        } else {
            LoopState::Running
        }
    }

    /// Begins a turn of the loop with what the window says of a close
    /// request. The loop goes on, and `true` comes back, exactly if it was
    /// running and the window reports none.
    pub fn begin_turn(&mut self, window_should_close: bool) -> (go_on: bool)
        ensures
            final(self).close_flag() == (old(self).close_flag() || window_should_close),
            go_on == (final(self).state() == LoopState::Running),
    {
        if window_should_close {
            self.closing = true;
        }
        !self.closing
    }

    /// Plans one frame from the events the host polled.
    ///
    /// A running loop handles the events, draws the scene and presents; if
    /// the escape key went down it also asks the window to close and is
    /// closing from then on, and nothing else in the events closes it. A
    /// closing loop does nothing and stays closing.
    pub fn run_frame(
        &mut self,
        ctx: &mut RenderContext,
        scene: &Scene,
        events: &Vec<InputEvent>,
    ) -> (plan: FramePlan)
        ensures
            old(self).state() == LoopState::Running ==> {
                &&& final(self).close_flag() == exit_pressed(events@)
                &&& plan.request_close == exit_pressed(events@)
                &&& view_all(plan.calls@) == frame_calls(*scene)
                &&& plan.present
                &&& *final(ctx) == old(ctx).after_all(frame_calls(*scene))
                &&& final(ctx).array_buffer is None
                &&& final(ctx).vertex_array is None
                &&& final(ctx).program is None
            },
            old(self).state() == LoopState::Closing ==> {
                &&& *final(self) == *old(self)
                &&& !plan.request_close
                &&& plan.calls@.len() == 0
                &&& !plan.present
                &&& *final(ctx) == *old(ctx)
            },
    {
        if self.closing {
            return FramePlan { request_close: false, calls: Vec::new(), present: false };
        }
        let mut flag = false;
        handle_events(&mut flag, events);
        self.closing = flag;
        let calls = render_frame(ctx, scene);
        FramePlan { request_close: flag, calls, present: true }
    }
}

} // verus!
