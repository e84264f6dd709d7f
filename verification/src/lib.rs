//! Verified core of an immediate-mode GUI renderer backend.
//!
//! The crate models the translation pipeline of a GPU renderer for an
//! immediate-mode GUI: growable vertex/index buffers, a texture registry
//! with a reserved font slot, an exact orthographic projection, clip-rect
//! conversion to pixel scissor bounds, the translation of a frame's draw
//! commands into a sequence of pipeline calls, and the capture/restore
//! bracket that isolates the host's device-context state.
//!
//! All GPU objects are represented by opaque integer handles; the code that
//! talks to the graphics device lives outside the verified library and
//! executes the call sequences this crate produces.

use vstd::prelude::*;

mod buffer;
mod draw_data;
mod geom;
mod renderer;
mod state;
mod textures;
mod translate;
mod upload;

pub use buffer::{capacity_after, grown_capacity, lemma_growth_monotonic, Buffer};
pub use draw_data::{
    lemma_sum_idx_consumed_nonneg, lemma_sum_idx_counts_nonneg, lemma_sum_vtx_counts_nonneg,
    sum_idx_consumed, sum_idx_counts, sum_vtx_counts, DrawCmd, DrawData, DrawList,
};
pub use renderer::{RenderPlan, Renderer};
pub use state::{
    apply_call, apply_call_spec, render_isolated, ContextState, PipelineObjects, StateBackup,
    TOPOLOGY_TRIANGLE_LIST,
};
pub use textures::TextureRegistry;
pub use upload::{upload_layout, upload_layout_spec, UploadSlot};
pub use translate::{
    frame_env, init_state, lemma_texture_resolution, resolve_spec, run_cmds, run_lists, step_cmd,
    translate, translate_spec, GpuCall, RenderError, TransEnv, TransResult, TransState,
};
pub use geom::{
    ClipRect, ProjectionMatrix, QVal, Rat, Scale, ScissorRect, Viewport, MAX_COORD, MAX_SCALE,
};
pub use geom::{
    clip_x, clip_y, lemma_projection_corners, projection_matrix, projection_spec, q, q_add,
    q_eq_int, q_mul_int, scissor_coord, scissor_rect, scissor_spec, trunc_scale, viewport_size,
    viewport_spec,
};

verus! {

/// Reserved texture identifier for the font atlas: the all-ones pattern,
/// which the registry never hands out.
pub const FONT_TEX_ID: u64 = 0xFFFF_FFFF_FFFF_FFFF;

/// Extra vertex capacity allocated beyond a frame's demand, so that
/// steady growth does not reallocate every frame.
pub const VERTEX_BUF_ADD_CAPACITY: u32 = 5000;

/// Extra index capacity allocated beyond a frame's demand.
pub const INDEX_BUF_ADD_CAPACITY: u32 = 10000;

} // verus!
