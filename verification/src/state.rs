use vstd::prelude::*;
use crate::geom::{ScissorRect, Viewport};
use crate::translate::GpuCall;

verus! {

/// The primitive topology the renderer draws with: triangle lists.
pub const TOPOLOGY_TRIANGLE_LIST: u32 = 4;

/// Every pipeline slot of the shared device context that the renderer
/// touches and the state guard tracks. GPU objects appear as opaque handles;
/// `None` means the slot has nothing bound.
#[derive(Clone, Copy, Debug, PartialEq, Eq, Structural)]
pub struct ContextState {
    pub topology: u32,
    pub input_layout: Option<u64>,
    pub vertex_buffer: Option<u64>,
    pub vertex_stride: u32,
    pub vertex_offset: u32,
    pub index_buffer: Option<u64>,
    pub index_format: u32,
    pub index_offset: u32,
    pub vertex_shader: Option<u64>,
    pub vertex_shader_instances: Option<u64>,
    pub vertex_constant_buffer: Option<u64>,
    pub geometry_shader: Option<u64>,
    pub geometry_shader_instances: Option<u64>,
    pub pixel_shader: Option<u64>,
    pub pixel_shader_instances: Option<u64>,
    pub pixel_shader_resource: Option<u64>,
    pub pixel_sampler: Option<u64>,
    pub rasterizer_state: Option<u64>,
    pub blend_state: Option<u64>,
    pub blend_factor: u32,
    pub sample_mask: u32,
    pub depth_stencil_state: Option<u64>,
    pub stencil_ref: u32,
    pub viewport: Viewport,
    pub scissor: ScissorRect,
}

/// The renderer's own pipeline objects, as opaque handles: the fixed bundle
/// created at initialization plus the current vertex and index buffers.
#[derive(Clone, Copy, Debug, PartialEq, Eq, Structural)]
pub struct PipelineObjects {
    pub input_layout: u64,
    pub vertex_buffer: u64,
    pub vertex_stride: u32,
    pub index_buffer: u64,
    pub index_format: u32,
    pub vertex_shader: u64,
    pub pixel_shader: u64,
    pub constant_buffer: u64,
    pub font_sampler: u64,
    pub blend_state: u64,
    pub rasterizer_state: u64,
    pub depth_stencil_state: u64,
}

/// What one translated call does to the tracked context state. A `Callback`
/// is opaque to the renderer: this function leaves the state unchanged, and
/// `render_isolated` instead substitutes an arbitrary caller-supplied state,
/// since a host callback may mutate anything.
pub open spec fn apply_call_spec(st: ContextState, call: GpuCall, obj: PipelineObjects) -> ContextState {
    match call {
        GpuCall::SetupRenderState { viewport } => ContextState {
            topology: TOPOLOGY_TRIANGLE_LIST,
            input_layout: Some(obj.input_layout),
            vertex_buffer: Some(obj.vertex_buffer),
            vertex_stride: obj.vertex_stride,
            vertex_offset: 0,
            index_buffer: Some(obj.index_buffer),
            index_format: obj.index_format,
            index_offset: 0,
            vertex_shader: Some(obj.vertex_shader),
            vertex_shader_instances: None,
            vertex_constant_buffer: Some(obj.constant_buffer),
            geometry_shader: None,
            geometry_shader_instances: None,
            pixel_shader: Some(obj.pixel_shader),
            pixel_shader_instances: None,
            pixel_sampler: Some(obj.font_sampler),
            blend_state: Some(obj.blend_state),
            blend_factor: 0,
            sample_mask: 0xFFFF_FFFF,
            rasterizer_state: Some(obj.rasterizer_state),
            depth_stencil_state: Some(obj.depth_stencil_state),
            stencil_ref: 0,
            viewport,
            ..st
        },
        GpuCall::BindTexture { handle } => ContextState { pixel_shader_resource: Some(handle), ..st },
        GpuCall::SetScissor { rect } => ContextState { scissor: rect, ..st },
        GpuCall::DrawIndexed { .. } => st,
        GpuCall::Callback { .. } => st,
    }
}

/// Apply one translated call to the tracked context state.
pub fn apply_call(ctx: &mut ContextState, call: &GpuCall, obj: &PipelineObjects)
    ensures
        *final(ctx) == apply_call_spec(*old(ctx), *call, *obj),
{
    match call {
        GpuCall::SetupRenderState { viewport } => {
            ctx.topology = TOPOLOGY_TRIANGLE_LIST;
            ctx.input_layout = Some(obj.input_layout);
            ctx.vertex_buffer = Some(obj.vertex_buffer);
            ctx.vertex_stride = obj.vertex_stride;
            ctx.vertex_offset = 0;
            ctx.index_buffer = Some(obj.index_buffer);
            ctx.index_format = obj.index_format;
            ctx.index_offset = 0;
            ctx.vertex_shader = Some(obj.vertex_shader);
            ctx.vertex_shader_instances = None;
            ctx.vertex_constant_buffer = Some(obj.constant_buffer);
            ctx.geometry_shader = None;
            ctx.geometry_shader_instances = None;
            ctx.pixel_shader = Some(obj.pixel_shader);
            ctx.pixel_shader_instances = None;
            ctx.pixel_sampler = Some(obj.font_sampler);
            ctx.blend_state = Some(obj.blend_state);
            ctx.blend_factor = 0;
            ctx.sample_mask = 0xFFFF_FFFF;
            ctx.rasterizer_state = Some(obj.rasterizer_state);
            ctx.depth_stencil_state = Some(obj.depth_stencil_state);
            ctx.stencil_ref = 0;
            ctx.viewport = *viewport;
        },
        GpuCall::BindTexture { handle } => {
            ctx.pixel_shader_resource = Some(*handle);
        },
        GpuCall::SetScissor { rect } => {
            ctx.scissor = *rect;
        },
        GpuCall::DrawIndexed { .. } => {},
        GpuCall::Callback { .. } => {},
    }
}

/// A one-shot snapshot of every tracked pipeline slot, captured before a
/// frame is rendered and written back verbatim afterwards. Restoring writes
/// every slot, so a slot that held nothing before the capture is explicitly
/// cleared rather than left with the renderer's binding.
#[derive(Clone, Copy, Debug, PartialEq, Eq, Structural)]
pub struct StateBackup {
    pub saved: ContextState,
}

impl StateBackup {
    /// Capture every tracked pipeline slot of the context.
    pub fn backup(ctx: &ContextState) -> (r: StateBackup)
        ensures
            r.saved == *ctx,
    {
        StateBackup { saved: *ctx }
    }

    /// Write every captured slot back to the context, verbatim. After the
    /// call the context is exactly as it was when the snapshot was taken,
    /// whatever happened in between.
    pub fn restore(&self, ctx: &mut ContextState)
        ensures
            *final(ctx) == self.saved,
    {
        *ctx = self.saved;
    }
}

/// State isolation: run a frame's translated calls against a context inside
/// the capture/restore bracket. Host callbacks may mutate the context
/// arbitrarily — their effects are supplied as `callback_effects`, consumed
/// one per callback — yet the context always ends exactly as it began. The
/// same holds for a frame whose call sequence was cut short by an error, and
/// trivially for the empty sequence a degenerate frame produces.
pub fn render_isolated(
    ctx: &mut ContextState,
    calls: &Vec<GpuCall>,
    obj: &PipelineObjects,
    callback_effects: &Vec<ContextState>,
)
    ensures
        *final(ctx) == *old(ctx),
{
    let backup = StateBackup::backup(ctx);
    let mut j: usize = 0;
    let mut i: usize = 0;
    while i < calls.len()
        invariant
            backup.saved == *old(ctx),
        decreases calls.len() - i,
    {
        match &calls[i] {
            GpuCall::Callback { .. } => {
                if j < callback_effects.len() {
                    *ctx = callback_effects[j];
                    j = j + 1;
                }
            },
            c => {
                apply_call(ctx, c, obj);
            },
        }
        i = i + 1;
    }
    backup.restore(ctx);
}

} // verus!
