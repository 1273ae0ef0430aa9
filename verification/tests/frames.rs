use gl_pipeline::codes::{ARRAY_BUFFER, COLOR_BUFFER_BIT, TEXTURE0, TEXTURE_2D, TRIANGLES};
use gl_pipeline::context::RenderContext;
use gl_pipeline::frame::{
    handle_event, handle_events, render_frame, set_background, FrameLoop, InputEvent, LoopState,
    Scene, ACTION_PRESS, BACKGROUND_ALPHA, BACKGROUND_BLUE, BACKGROUND_GREEN, BACKGROUND_RED,
    KEY_ESCAPE,
};
use gl_pipeline::gpu::GpuCall;
use gl_pipeline::handle::Handle;
use gl_pipeline::mesh::UploadedMesh;
use gl_pipeline::shader::ShaderProgram;
use gl_pipeline::texture::Texture;

fn handle(raw: u32) -> Handle {
    Handle::new(raw).unwrap()
}

fn plain_scene() -> Scene {
    Scene {
        program: ShaderProgram { handle: handle(3) },
        mesh: UploadedMesh { vertex_array: handle(4), buffer: handle(5), vertex_count: 3 },
        texture: None,
    }
}

fn textured_scene() -> Scene {
    Scene { texture: Some(Texture { handle: handle(6), width: 2, height: 2 }), ..plain_scene() }
}

fn key(code: i32, action: i32) -> InputEvent {
    InputEvent::Key { code, scancode: 9, action, modifiers: 0 }
}

fn draws(calls: &[GpuCall]) -> Vec<GpuCall> {
    calls.iter().filter(|call| matches!(call, GpuCall::DrawArrays { .. })).cloned().collect()
}

#[test]
fn exit_key_is_escape_going_down() {
    assert_eq!(KEY_ESCAPE, 256);
    assert_eq!(ACTION_PRESS, 1);
}

#[test]
fn background_is_the_fixed_colour() {
    assert_eq!(f32::from_bits(BACKGROUND_RED), 0.1);
    assert_eq!(f32::from_bits(BACKGROUND_GREEN), 0.2);
    assert_eq!(f32::from_bits(BACKGROUND_BLUE), 0.3);
    assert_eq!(f32::from_bits(BACKGROUND_ALPHA), 1.0);
    let mut ctx = RenderContext::new();
    assert_eq!(
        set_background(&mut ctx),
        vec![GpuCall::ClearColor {
            red: 0.1f32.to_bits(),
            green: 0.2f32.to_bits(),
            blue: 0.3f32.to_bits(),
            alpha: 1.0f32.to_bits(),
        }]
    );
    assert_eq!(ctx, RenderContext::new());
}

#[test]
fn frame_without_texture_issues_its_calls_in_order() {
    let mut ctx = RenderContext::new();
    let calls = render_frame(&mut ctx, &plain_scene());
    assert_eq!(
        calls,
        vec![
            GpuCall::Clear { mask: COLOR_BUFFER_BIT },
            GpuCall::UseProgram { current: Some(handle(3)) },
            GpuCall::BindVertexArray { vertex_array: Some(handle(4)) },
            GpuCall::DrawArrays { mode: TRIANGLES, first: 0, count: 3 },
            GpuCall::BindBuffer { target: ARRAY_BUFFER, buffer: None },
            GpuCall::BindVertexArray { vertex_array: None },
            GpuCall::UseProgram { current: None },
        ]
    );
}

#[test]
fn frame_with_texture_binds_it_before_the_vertex_array() {
    let mut ctx = RenderContext::new();
    let calls = render_frame(&mut ctx, &textured_scene());
    assert_eq!(
        calls,
        vec![
            GpuCall::Clear { mask: COLOR_BUFFER_BIT },
            GpuCall::UseProgram { current: Some(handle(3)) },
            GpuCall::ActiveTexture { unit: TEXTURE0 },
            GpuCall::BindTexture { target: TEXTURE_2D, texture: Some(handle(6)) },
            GpuCall::BindVertexArray { vertex_array: Some(handle(4)) },
            GpuCall::DrawArrays { mode: TRIANGLES, first: 0, count: 3 },
            GpuCall::BindBuffer { target: ARRAY_BUFFER, buffer: None },
            GpuCall::BindVertexArray { vertex_array: None },
            GpuCall::UseProgram { current: None },
        ]
    );
    assert_eq!(ctx.first_unit_texture, Some(handle(6)));
}

#[test]
fn frame_draws_once_three_vertices_as_triangles() {
    for scene in [plain_scene(), textured_scene()] {
        let mut ctx = RenderContext::new();
        let calls = render_frame(&mut ctx, &scene);
        assert_eq!(draws(&calls), vec![GpuCall::DrawArrays { mode: 0x0004, first: 0, count: 3 }]);
    }
}

#[test]
fn frame_binds_draws_and_resets_and_does_nothing_else() {
    for scene in [plain_scene(), textured_scene()] {
        let mut ctx = RenderContext::new();
        for call in render_frame(&mut ctx, &scene) {
            assert!(matches!(
                call,
                GpuCall::Clear { .. }
                    | GpuCall::UseProgram { .. }
                    | GpuCall::ActiveTexture { .. }
                    | GpuCall::BindTexture { .. }
                    | GpuCall::BindVertexArray { .. }
                    | GpuCall::BindBuffer { .. }
                    | GpuCall::DrawArrays { .. }
            ));
        }
    }
}

#[test]
fn frame_draws_every_vertex_of_the_mesh() {
    let mut scene = plain_scene();
    scene.mesh.vertex_count = 36;
    let mut ctx = RenderContext::new();
    let calls = render_frame(&mut ctx, &scene);
    assert_eq!(draws(&calls), vec![GpuCall::DrawArrays { mode: TRIANGLES, first: 0, count: 36 }]);
}

#[test]
fn frame_resets_the_bindings_after_the_draw() {
    for scene in [plain_scene(), textured_scene()] {
        let mut ctx = RenderContext::new();
        ctx.record(&GpuCall::BindBuffer { target: ARRAY_BUFFER, buffer: Some(handle(5)) });
        ctx.record(&GpuCall::BindVertexArray { vertex_array: Some(handle(4)) });
        ctx.record(&GpuCall::UseProgram { current: Some(handle(8)) });
        let calls = render_frame(&mut ctx, &scene);
        let draw = calls.iter().position(|call| matches!(call, GpuCall::DrawArrays { .. })).unwrap();
        assert_eq!(
            calls[draw + 1..],
            [
                GpuCall::BindBuffer { target: ARRAY_BUFFER, buffer: None },
                GpuCall::BindVertexArray { vertex_array: None },
                GpuCall::UseProgram { current: None },
            ]
        );
        assert_eq!(ctx.array_buffer, None);
        assert_eq!(ctx.vertex_array, None);
        assert_eq!(ctx.program, None);
    }
}

#[test]
fn frame_draws_with_the_scene_bound() {
    let scene = textured_scene();
    let mut ctx = RenderContext::new();
    let calls = render_frame(&mut ctx, &scene);
    let mut at_draw = RenderContext::new();
    for call in &calls {
        if matches!(call, GpuCall::DrawArrays { .. }) {
            break;
        }
        at_draw.record(call);
    }
    assert_eq!(at_draw.program, Some(handle(3)));
    assert_eq!(at_draw.vertex_array, Some(handle(4)));
    assert_eq!(at_draw.first_unit_texture, Some(handle(6)));
}

#[test]
fn escape_press_raises_the_close_flag() {
    let mut flag = false;
    handle_event(&mut flag, &key(KEY_ESCAPE, ACTION_PRESS));
    assert!(flag);
}

#[test]
fn no_other_event_touches_the_close_flag() {
    let others = [
        key(KEY_ESCAPE, 0),
        key(KEY_ESCAPE, 2),
        key(65, ACTION_PRESS),
        key(32, ACTION_PRESS),
        key(257, ACTION_PRESS),
        key(255, ACTION_PRESS),
        key(-1, ACTION_PRESS),
        InputEvent::Other,
    ];
    for event in others {
        let mut flag = false;
        handle_event(&mut flag, &event);
        assert!(!flag);
        let mut raised = true;
        handle_event(&mut raised, &event);
        assert!(raised);
    }
}

#[test]
fn escape_press_ignores_scancode_and_modifiers() {
    let mut flag = false;
    handle_event(
        &mut flag,
        &InputEvent::Key { code: KEY_ESCAPE, scancode: -7, action: ACTION_PRESS, modifiers: 0x3 },
    );
    assert!(flag);
}

#[test]
fn events_of_a_poll_are_handled_together() {
    let mut flag = false;
    handle_events(&mut flag, &Vec::new());
    assert!(!flag);
    handle_events(&mut flag, &vec![key(65, ACTION_PRESS), InputEvent::Other]);
    assert!(!flag);
    handle_events(
        &mut flag,
        &vec![key(65, ACTION_PRESS), key(KEY_ESCAPE, ACTION_PRESS), key(KEY_ESCAPE, 0)],
    );
    assert!(flag);
    handle_events(&mut flag, &vec![InputEvent::Other]);
    assert!(flag);
}

#[test]
fn loop_starts_running_and_runs_while_nothing_closes_it() {
    let mut frame_loop = FrameLoop::new();
    assert_eq!(frame_loop.current_state(), LoopState::Running);
    let mut ctx = RenderContext::new();
    for _ in 0..3 {
        assert!(frame_loop.begin_turn(false));
        let plan = frame_loop.run_frame(&mut ctx, &plain_scene(), &vec![key(65, ACTION_PRESS)]);
        assert!(!plan.request_close);
        assert!(plan.present);
        assert_eq!(draws(&plan.calls).len(), 1);
        assert_eq!(frame_loop.current_state(), LoopState::Running);
    }
}

#[test]
fn escape_closes_the_loop_on_the_poll_that_brings_it() {
    let mut frame_loop = FrameLoop::new();
    let mut ctx = RenderContext::new();
    assert!(frame_loop.begin_turn(false));
    assert!(!frame_loop.is_closing());
    let plan = frame_loop.run_frame(
        &mut ctx,
        &textured_scene(),
        &vec![InputEvent::Other, key(KEY_ESCAPE, ACTION_PRESS)],
    );
    assert!(frame_loop.is_closing());
    assert!(plan.request_close);
    assert!(plan.present);
    assert_eq!(draws(&plan.calls).len(), 1);
    assert_eq!(frame_loop.current_state(), LoopState::Closing);
    assert!(!frame_loop.begin_turn(true));
    assert!(!frame_loop.begin_turn(false));
}

#[test]
fn window_close_request_closes_the_loop() {
    let mut frame_loop = FrameLoop::new();
    assert!(!frame_loop.begin_turn(true));
    assert_eq!(frame_loop.current_state(), LoopState::Closing);
    assert!(!frame_loop.begin_turn(false));
    assert_eq!(frame_loop.current_state(), LoopState::Closing);
}

#[test]
fn closing_loop_plans_nothing() {
    let mut frame_loop = FrameLoop::new();
    frame_loop.begin_turn(true);
    let mut ctx = RenderContext::new();
    ctx.record(&GpuCall::UseProgram { current: Some(handle(8)) });
    let before = ctx;
    let plan =
        frame_loop.run_frame(&mut ctx, &plain_scene(), &vec![key(KEY_ESCAPE, ACTION_PRESS)]);
    assert!(!plan.request_close);
    assert!(plan.calls.is_empty());
    assert!(!plan.present);
    assert_eq!(ctx, before);
    assert_eq!(frame_loop.current_state(), LoopState::Closing);
}
