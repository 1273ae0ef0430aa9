use gl_pipeline::codes::{ARRAY_BUFFER, TEXTURE0, TEXTURE_2D};
use gl_pipeline::context::RenderContext;
use gl_pipeline::gpu::GpuCall;
use gl_pipeline::handle::Handle;

fn handle(raw: u32) -> Handle {
    Handle::new(raw).unwrap()
}

#[test]
fn fresh_context_binds_nothing() {
    let ctx = RenderContext::new();
    assert_eq!(ctx.vertex_array, None);
    assert_eq!(ctx.array_buffer, None);
    assert_eq!(ctx.program, None);
    assert_eq!(ctx.first_unit_texture, None);
    assert_eq!(ctx.active_unit, TEXTURE0);
}

#[test]
fn binding_calls_are_followed() {
    let mut ctx = RenderContext::new();
    ctx.record(&GpuCall::UseProgram { current: Some(handle(3)) });
    ctx.record(&GpuCall::BindVertexArray { vertex_array: Some(handle(4)) });
    ctx.record(&GpuCall::BindBuffer { target: ARRAY_BUFFER, buffer: Some(handle(5)) });
    ctx.record(&GpuCall::BindTexture { target: TEXTURE_2D, texture: Some(handle(6)) });
    assert_eq!(ctx.program, Some(handle(3)));
    assert_eq!(ctx.vertex_array, Some(handle(4)));
    assert_eq!(ctx.array_buffer, Some(handle(5)));
    assert_eq!(ctx.first_unit_texture, Some(handle(6)));
    ctx.record(&GpuCall::UseProgram { current: None });
    ctx.record(&GpuCall::BindVertexArray { vertex_array: None });
    ctx.record(&GpuCall::BindBuffer { target: ARRAY_BUFFER, buffer: None });
    ctx.record(&GpuCall::BindTexture { target: TEXTURE_2D, texture: None });
    assert_eq!(ctx, RenderContext::new());
}

#[test]
fn other_buffer_targets_leave_the_array_buffer() {
    let mut ctx = RenderContext::new();
    ctx.record(&GpuCall::BindBuffer { target: ARRAY_BUFFER, buffer: Some(handle(5)) });
    ctx.record(&GpuCall::BindBuffer { target: glow::ELEMENT_ARRAY_BUFFER, buffer: Some(handle(9)) });
    assert_eq!(ctx.array_buffer, Some(handle(5)));
}

#[test]
fn other_texture_units_leave_the_first_unit() {
    let mut ctx = RenderContext::new();
    ctx.record(&GpuCall::BindTexture { target: TEXTURE_2D, texture: Some(handle(6)) });
    ctx.record(&GpuCall::ActiveTexture { unit: TEXTURE0 + 1 });
    ctx.record(&GpuCall::BindTexture { target: TEXTURE_2D, texture: Some(handle(7)) });
    assert_eq!(ctx.active_unit, TEXTURE0 + 1);
    assert_eq!(ctx.first_unit_texture, Some(handle(6)));
    ctx.record(&GpuCall::ActiveTexture { unit: TEXTURE0 });
    ctx.record(&GpuCall::BindTexture { target: glow::TEXTURE_3D, texture: Some(handle(8)) });
    assert_eq!(ctx.first_unit_texture, Some(handle(6)));
}

#[test]
fn calls_that_bind_nothing_change_nothing() {
    let mut ctx = RenderContext::new();
    ctx.record(&GpuCall::UseProgram { current: Some(handle(3)) });
    let before = ctx;
    ctx.record(&GpuCall::CreateShader { kind: glow::VERTEX_SHADER });
    ctx.record(&GpuCall::DeleteShader { shader: handle(1) });
    ctx.record(&GpuCall::Clear { mask: glow::COLOR_BUFFER_BIT });
    ctx.record(&GpuCall::DrawArrays { mode: glow::TRIANGLES, first: 0, count: 3 });
    ctx.record(&GpuCall::EnableVertexAttribArray { index: 0 });
    assert_eq!(ctx, before);
}

#[test]
fn a_batch_is_recorded_first_to_last() {
    let mut ctx = RenderContext::new();
    ctx.record_all(&vec![
        GpuCall::UseProgram { current: Some(handle(1)) },
        GpuCall::UseProgram { current: Some(handle(2)) },
        GpuCall::BindVertexArray { vertex_array: Some(handle(3)) },
    ]);
    assert_eq!(ctx.program, Some(handle(2)));
    assert_eq!(ctx.vertex_array, Some(handle(3)));
    let before = ctx;
    ctx.record_all(&Vec::new());
    assert_eq!(ctx, before);
}
