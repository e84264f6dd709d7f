use imgui_dx11_renderer::{
    apply_call, render_isolated, ClipRect, ContextState, DrawCmd, DrawData, DrawList, GpuCall,
    PipelineObjects, Rat, Renderer, RenderError, Scale, ScissorRect, StateBackup, Viewport,
    FONT_TEX_ID, INDEX_BUF_ADD_CAPACITY, VERTEX_BUF_ADD_CAPACITY,
};

const FONT_VIEW: u64 = 42;

fn one_to_one() -> Scale {
    Scale { num: 1, den: 1 }
}

fn frame(lists: Vec<DrawList>) -> DrawData {
    let total_vtx_count = lists.iter().map(|l| l.vtx_count).sum();
    let total_idx_count = lists.iter().map(|l| l.idx_count).sum();
    DrawData {
        display_pos_x: 0,
        display_pos_y: 0,
        display_size_w: 800,
        display_size_h: 600,
        fb_scale_x: one_to_one(),
        fb_scale_y: one_to_one(),
        draw_lists: lists,
        total_vtx_count,
        total_idx_count,
    }
}

fn whole_display_clip() -> ClipRect {
    ClipRect { left: 0, top: 0, right: 800, bottom: 600 }
}

fn elements(count: u32, texture_id: u64) -> DrawCmd {
    DrawCmd::Elements { count, clip_rect: whole_display_clip(), texture_id }
}

fn sample_context(seed: u64) -> ContextState {
    ContextState {
        topology: 11,
        input_layout: Some(seed),
        vertex_buffer: Some(seed + 1),
        vertex_stride: 12,
        vertex_offset: 34,
        index_buffer: Some(seed + 2),
        index_format: 56,
        index_offset: 78,
        vertex_shader: Some(seed + 3),
        vertex_shader_instances: None,
        vertex_constant_buffer: None,
        geometry_shader: Some(seed + 4),
        geometry_shader_instances: Some(seed + 5),
        pixel_shader: None,
        pixel_shader_instances: None,
        pixel_shader_resource: Some(seed + 6),
        pixel_sampler: Some(seed + 7),
        rasterizer_state: None,
        blend_state: Some(seed + 8),
        blend_factor: 90,
        sample_mask: 123,
        depth_stencil_state: Some(seed + 9),
        stencil_ref: 4,
        viewport: Viewport {
            width: Rat { num: seed as i64 + 10, den: 1 },
            height: Rat { num: 99, den: 2 },
        },
        scissor: ScissorRect { left: 1, top: 2, right: 3, bottom: 4 },
    }
}

fn sample_objects() -> PipelineObjects {
    PipelineObjects {
        input_layout: 200,
        vertex_buffer: 201,
        vertex_stride: 20,
        index_buffer: 202,
        index_format: 57,
        vertex_shader: 203,
        pixel_shader: 204,
        constant_buffer: 205,
        font_sampler: 206,
        blend_state: 207,
        rasterizer_state: 208,
        depth_stencil_state: 209,
    }
}

/// End-to-end: one draw list with one Elements command (count 6, font
/// texture, clip = whole display) produces the fixed state setup, exactly
/// one texture bind (the font), one scissor set, and one indexed draw call
/// with first index and base vertex 0.
#[test]
fn single_font_command_frame() {
    let mut renderer = Renderer::new(FONT_VIEW);
    let data = frame(vec![DrawList {
        vtx_count: 4,
        idx_count: 6,
        commands: vec![elements(6, FONT_TEX_ID)],
    }]);
    let plan = renderer.render(&data);
    assert_eq!(plan.error, None);
    assert!(matches!(plan.calls[0], GpuCall::SetupRenderState { .. }));
    assert_eq!(plan.calls[1], GpuCall::BindTexture { handle: FONT_VIEW });
    assert_eq!(
        plan.calls[2],
        GpuCall::SetScissor { rect: ScissorRect { left: 0, top: 0, right: 800, bottom: 600 } }
    );
    assert_eq!(plan.calls[3], GpuCall::DrawIndexed { count: 6, first_index: 0, base_vertex: 0 });
    assert_eq!(plan.calls.len(), 4);
    let binds = plan
        .calls
        .iter()
        .filter(|c| matches!(c, GpuCall::BindTexture { .. }))
        .count();
    assert_eq!(binds, 1);
}

/// A registered texture identifier binds the registered view; switching back
/// to the font rebinds the font view.
#[test]
fn registered_texture_binds_registered_view() {
    let mut renderer = Renderer::new(FONT_VIEW);
    let id = renderer.textures_mut().register_texture(777).unwrap();
    let data = frame(vec![DrawList {
        vtx_count: 8,
        idx_count: 12,
        commands: vec![elements(6, id), elements(6, FONT_TEX_ID)],
    }]);
    let plan = renderer.render(&data);
    assert_eq!(plan.error, None);
    assert_eq!(plan.calls[1], GpuCall::BindTexture { handle: FONT_VIEW });
    assert_eq!(plan.calls[2], GpuCall::BindTexture { handle: 777 });
    assert_eq!(plan.calls[4], GpuCall::DrawIndexed { count: 6, first_index: 0, base_vertex: 0 });
    assert_eq!(plan.calls[5], GpuCall::BindTexture { handle: FONT_VIEW });
    assert_eq!(plan.calls[7], GpuCall::DrawIndexed { count: 6, first_index: 6, base_vertex: 0 });
}

/// An unregistered texture identifier aborts the frame at the offending
/// command: the error is reported and no further call is emitted.
#[test]
fn unregistered_texture_aborts_frame() {
    let mut renderer = Renderer::new(FONT_VIEW);
    let data = frame(vec![DrawList {
        vtx_count: 8,
        idx_count: 12,
        commands: vec![elements(6, FONT_TEX_ID), elements(6, 5)],
    }]);
    let plan = renderer.render(&data);
    assert_eq!(plan.error, Some(RenderError::TextureNotFound { texture_id: 5 }));
    // Setup, font bind, then the first command's scissor and draw; nothing
    // for the failing command.
    assert_eq!(plan.calls.len(), 4);
    let draws = plan
        .calls
        .iter()
        .filter(|c| matches!(c, GpuCall::DrawIndexed { .. }))
        .count();
    assert_eq!(draws, 1);
}

/// The base vertex advances by a whole list's vertex count once per list;
/// the first index accumulates across lists.
#[test]
fn offsets_accumulate_across_lists() {
    let mut renderer = Renderer::new(FONT_VIEW);
    let data = frame(vec![
        DrawList { vtx_count: 10, idx_count: 9, commands: vec![elements(9, FONT_TEX_ID)] },
        DrawList {
            vtx_count: 20,
            idx_count: 15,
            commands: vec![elements(6, FONT_TEX_ID), elements(9, FONT_TEX_ID)],
        },
    ]);
    let plan = renderer.render(&data);
    assert_eq!(plan.error, None);
    let draws: Vec<&GpuCall> = plan
        .calls
        .iter()
        .filter(|c| matches!(c, GpuCall::DrawIndexed { .. }))
        .collect();
    assert_eq!(*draws[0], GpuCall::DrawIndexed { count: 9, first_index: 0, base_vertex: 0 });
    assert_eq!(*draws[1], GpuCall::DrawIndexed { count: 6, first_index: 9, base_vertex: 10 });
    assert_eq!(*draws[2], GpuCall::DrawIndexed { count: 9, first_index: 15, base_vertex: 10 });
}

/// A ResetRenderState command reapplies the fixed pipeline state; a
/// RawCallback is forwarded by its token.
#[test]
fn reset_and_callback_commands() {
    let mut renderer = Renderer::new(FONT_VIEW);
    let data = frame(vec![DrawList {
        vtx_count: 4,
        idx_count: 6,
        commands: vec![
            DrawCmd::RawCallback { token: 9000 },
            DrawCmd::ResetRenderState,
            elements(6, FONT_TEX_ID),
        ],
    }]);
    let plan = renderer.render(&data);
    assert_eq!(plan.error, None);
    assert_eq!(plan.calls[2], GpuCall::Callback { token: 9000 });
    assert!(matches!(plan.calls[3], GpuCall::SetupRenderState { .. }));
    assert_eq!(plan.calls[0], plan.calls[3]);
}

/// Growth monotonicity: across frames the buffer capacities stay at least
/// every demand seen so far and never decrease.
#[test]
fn buffer_growth_is_monotonic() {
    let mut renderer = Renderer::new(FONT_VIEW);
    assert_eq!(renderer.vertex_buffer.capacity, VERTEX_BUF_ADD_CAPACITY);
    assert_eq!(renderer.index_buffer.capacity, INDEX_BUF_ADD_CAPACITY);

    let demands: [u32; 5] = [6000, 100, 9000, 9000, 1];
    let mut seen_max: u32 = 0;
    let mut last_cap: u32 = renderer.vertex_buffer.capacity;
    for d in demands {
        let data = frame(vec![DrawList {
            vtx_count: d,
            idx_count: 3,
            commands: vec![elements(3, FONT_TEX_ID)],
        }]);
        let plan = renderer.render(&data);
        seen_max = seen_max.max(d);
        assert!(renderer.vertex_buffer.capacity >= seen_max);
        assert!(renderer.vertex_buffer.capacity >= last_cap);
        if d > last_cap {
            assert_eq!(plan.grow_vertex, Some(d + VERTEX_BUF_ADD_CAPACITY));
        } else {
            assert_eq!(plan.grow_vertex, None);
        }
        last_cap = renderer.vertex_buffer.capacity;
    }
    // 9000 never exceeded the 11000 reached after the first growth.
    assert_eq!(renderer.vertex_buffer.capacity, 6000 + VERTEX_BUF_ADD_CAPACITY);
}

/// Idempotent no-op: a frame with an empty or negative display size leaves
/// the renderer untouched and plans nothing.
#[test]
fn degenerate_display_is_noop() {
    let mut renderer = Renderer::new(FONT_VIEW);
    let mut data = frame(vec![DrawList {
        vtx_count: 4,
        idx_count: 6,
        commands: vec![elements(6, FONT_TEX_ID)],
    }]);
    data.display_size_w = 0;
    let cap_before = renderer.vertex_buffer.capacity;
    let plan = renderer.render(&data);
    assert!(plan.calls.is_empty());
    assert!(plan.upload.is_empty());
    assert_eq!(plan.grow_vertex, None);
    assert_eq!(plan.grow_index, None);
    assert_eq!(plan.projection, None);
    assert_eq!(plan.error, None);
    assert_eq!(renderer.vertex_buffer.capacity, cap_before);

    data.display_size_w = 800;
    data.display_size_h = -5;
    let plan = renderer.render(&data);
    assert!(plan.calls.is_empty());
    assert_eq!(plan.error, None);
}

/// The upload layout packs each list's data contiguously, in list order.
#[test]
fn upload_layout_is_contiguous() {
    let mut renderer = Renderer::new(FONT_VIEW);
    let data = frame(vec![
        DrawList { vtx_count: 10, idx_count: 30, commands: vec![elements(30, FONT_TEX_ID)] },
        DrawList { vtx_count: 5, idx_count: 9, commands: vec![elements(9, FONT_TEX_ID)] },
        DrawList { vtx_count: 7, idx_count: 3, commands: vec![elements(3, FONT_TEX_ID)] },
    ]);
    let plan = renderer.render(&data);
    assert_eq!(plan.upload.len(), 3);
    assert_eq!((plan.upload[0].vtx_offset, plan.upload[0].idx_offset), (0, 0));
    assert_eq!((plan.upload[1].vtx_offset, plan.upload[1].idx_offset), (10, 30));
    assert_eq!((plan.upload[2].vtx_offset, plan.upload[2].idx_offset), (15, 39));
}

/// The projection of the plan matches the frame's display rectangle.
#[test]
fn plan_carries_exact_projection() {
    let mut renderer = Renderer::new(FONT_VIEW);
    let data = frame(vec![DrawList {
        vtx_count: 4,
        idx_count: 6,
        commands: vec![elements(6, FONT_TEX_ID)],
    }]);
    let plan = renderer.render(&data);
    let m = plan.projection.unwrap();
    assert_eq!(m.m00, Rat { num: 2, den: 800 });
    assert_eq!(m.m11, Rat { num: -2, den: 600 });
    assert_eq!(m.m30, Rat { num: -800, den: 800 });
    assert_eq!(m.m31, Rat { num: 600, den: 600 });
}

/// State isolation: running a frame's calls inside the capture/restore
/// bracket returns the context to its exact prior state, for a successful
/// frame, for one with a host callback that scrambles the state, and for one
/// cut short by an error.
#[test]
fn context_state_is_isolated() {
    let before = sample_context(1000);
    let objects = sample_objects();

    // Successful frame.
    let mut renderer = Renderer::new(FONT_VIEW);
    let data = frame(vec![DrawList {
        vtx_count: 4,
        idx_count: 6,
        commands: vec![elements(6, FONT_TEX_ID)],
    }]);
    let plan = renderer.render(&data);
    let mut ctx = before;
    render_isolated(&mut ctx, &plan.calls, &objects, &Vec::new());
    assert_eq!(ctx, before);

    // Frame with a callback whose effect scrambles every slot.
    let data = frame(vec![DrawList {
        vtx_count: 4,
        idx_count: 6,
        commands: vec![DrawCmd::RawCallback { token: 1 }, elements(6, FONT_TEX_ID)],
    }]);
    let plan = renderer.render(&data);
    let mut ctx = before;
    render_isolated(&mut ctx, &plan.calls, &objects, &vec![sample_context(2000)]);
    assert_eq!(ctx, before);

    // Frame aborted by an unresolved texture.
    let data = frame(vec![DrawList {
        vtx_count: 4,
        idx_count: 6,
        commands: vec![elements(6, 12345)],
    }]);
    let plan = renderer.render(&data);
    assert!(plan.error.is_some());
    let mut ctx = before;
    render_isolated(&mut ctx, &plan.calls, &objects, &Vec::new());
    assert_eq!(ctx, before);
}

/// Applying the translated calls drives the tracked context slots: the state
/// setup binds the renderer's objects, a texture bind fills the pixel-shader
/// resource slot, a scissor call sets the scissor and nothing else.
#[test]
fn calls_drive_context_slots() {
    let objects = sample_objects();
    let mut ctx = sample_context(1000);
    let viewport = Viewport {
        width: Rat { num: 800, den: 1 },
        height: Rat { num: 600, den: 1 },
    };
    let scissor_before = ctx.scissor;
    apply_call(&mut ctx, &GpuCall::SetupRenderState { viewport }, &objects);
    assert_eq!(ctx.input_layout, Some(objects.input_layout));
    assert_eq!(ctx.vertex_buffer, Some(objects.vertex_buffer));
    assert_eq!(ctx.index_buffer, Some(objects.index_buffer));
    assert_eq!(ctx.vertex_shader, Some(objects.vertex_shader));
    assert_eq!(ctx.pixel_shader, Some(objects.pixel_shader));
    assert_eq!(ctx.geometry_shader, None);
    assert_eq!(ctx.vertex_constant_buffer, Some(objects.constant_buffer));
    assert_eq!(ctx.pixel_sampler, Some(objects.font_sampler));
    assert_eq!(ctx.blend_state, Some(objects.blend_state));
    assert_eq!(ctx.rasterizer_state, Some(objects.rasterizer_state));
    assert_eq!(ctx.depth_stencil_state, Some(objects.depth_stencil_state));
    assert_eq!(ctx.sample_mask, 0xFFFF_FFFF);
    assert_eq!(ctx.blend_factor, 0);
    assert_eq!(ctx.stencil_ref, 0);
    assert_eq!(ctx.viewport, viewport);
    assert_eq!(ctx.scissor, scissor_before);

    apply_call(&mut ctx, &GpuCall::BindTexture { handle: 77 }, &objects);
    assert_eq!(ctx.pixel_shader_resource, Some(77));

    let rect = ScissorRect { left: 1, top: 2, right: 3, bottom: 4 };
    let before = ctx;
    apply_call(&mut ctx, &GpuCall::SetScissor { rect }, &objects);
    assert_eq!(ctx.scissor, rect);
    apply_call(
        &mut ctx,
        &GpuCall::DrawIndexed { count: 3, first_index: 0, base_vertex: 0 },
        &objects,
    );
    assert_eq!(ctx.scissor, rect);
    assert_eq!(ctx.pixel_shader_resource, before.pixel_shader_resource);
}

/// Backup and restore bracket: restore writes every captured slot back,
/// including clearing slots that held nothing when captured.
#[test]
fn backup_restore_roundtrip() {
    let before = sample_context(1000);
    let mut ctx = before;
    let backup = StateBackup::backup(&ctx);
    let mut scrambled = sample_context(5000);
    scrambled.pixel_shader = Some(1);
    ctx = scrambled;
    backup.restore(&mut ctx);
    assert_eq!(ctx, before);
}
