use vstd::prelude::*;
use crate::buffer::{grown_capacity, Buffer};
use crate::draw_data::DrawData;
use crate::geom::{projection_matrix, projection_spec, viewport_size, viewport_spec, ProjectionMatrix};
use crate::textures::TextureRegistry;
use crate::translate::{translate, translate_spec, GpuCall, RenderError};
use crate::upload::{upload_layout, upload_layout_spec, UploadSlot};
use crate::{INDEX_BUF_ADD_CAPACITY, VERTEX_BUF_ADD_CAPACITY};

verus! {

/// Everything the device adapter must do to draw one frame, in order: grow
/// the buffers, copy each list's data at its slot's offsets, write the
/// projection matrix, then issue the calls. A degenerate frame (empty
/// display) produces an empty plan. `error` reports the command that stopped
/// translation; the calls before it still draw, so the frame is visibly
/// incomplete rather than silently wrong.
pub struct RenderPlan {
    pub grow_vertex: Option<u32>,
    pub grow_index: Option<u32>,
    pub upload: Vec<UploadSlot>,
    pub projection: Option<ProjectionMatrix>,
    pub calls: Vec<GpuCall>,
    pub error: Option<RenderError>,
}

impl RenderPlan {
    /// The plan of a frame with nothing to draw: no growth, no upload, no
    /// calls, no error.
    pub open spec fn is_empty(self) -> bool {
        &&& self.grow_vertex is None
        &&& self.grow_index is None
        &&& self.upload@ == Seq::<UploadSlot>::empty()
        &&& self.projection is None
        &&& self.calls@ == Seq::<GpuCall>::empty()
        &&& self.error is None
    }
}

/// The renderer core: the growable vertex and index buffer slots, the
/// texture registry, and the font atlas view handle. The GPU objects
/// themselves live with the device adapter; this state decides, per frame,
/// what the adapter issues.
pub struct Renderer {
    pub vertex_buffer: Buffer,
    pub index_buffer: Buffer,
    pub textures: TextureRegistry,
    pub font_resource_view: u64,
}

impl Renderer {
    /// A fresh renderer around the font atlas view: empty registry, both
    /// buffers at their initial slack capacity.
    pub fn new(font_resource_view: u64) -> (r: Renderer)
        ensures
            r.vertex_buffer.capacity == VERTEX_BUF_ADD_CAPACITY,
            r.index_buffer.capacity == INDEX_BUF_ADD_CAPACITY,
            r.textures@ == Map::<u64, u64>::empty(),
            r.textures.wf(),
            r.textures.next() == 0,
            r.font_resource_view == font_resource_view,
    {
        Renderer {
            vertex_buffer: Buffer::with_slack(VERTEX_BUF_ADD_CAPACITY),
            index_buffer: Buffer::with_slack(INDEX_BUF_ADD_CAPACITY),
            textures: TextureRegistry::new(),
            font_resource_view,
        }
    }

    /// The texture registry of this renderer.
    pub fn textures(&self) -> (r: &TextureRegistry)
        ensures
            *r == self.textures,
    {
        &self.textures
    }

    /// The texture registry of this renderer, for registering and removing
    /// the host's textures.
    pub fn textures_mut(&mut self) -> (r: &mut TextureRegistry)
        ensures
            *r == old(self).textures,
            *final(self) == (Renderer { textures: *final(r), ..*old(self) }),
    {
        &mut self.textures
    }

    /// Decide everything needed to draw one frame. A frame whose display is
    /// empty in either dimension is a no-op: the plan is empty and the
    /// renderer unchanged. Otherwise each buffer grows to the frame's total
    /// (plus slack) where it falls short — and never shrinks — and the plan
    /// carries the copy layout, the exact projection, and the translated
    /// call sequence, cut short at the first unresolved texture.
    pub fn render(&mut self, data: &DrawData) -> (plan: RenderPlan)
        requires
            data.wf(),
        ensures
            data.degenerate() ==> plan.is_empty() && *final(self) == *old(self),
            !data.degenerate() ==> ({
                let t = translate_spec(*data, old(self).textures@, old(self).font_resource_view);
                &&& final(self).vertex_buffer.capacity == grown_capacity(
                    old(self).vertex_buffer.capacity as int,
                    data.total_vtx_count as int,
                    VERTEX_BUF_ADD_CAPACITY as int,
                )
                &&& final(self).index_buffer.capacity == grown_capacity(
                    old(self).index_buffer.capacity as int,
                    data.total_idx_count as int,
                    INDEX_BUF_ADD_CAPACITY as int,
                )
                &&& final(self).vertex_buffer.capacity >= data.total_vtx_count
                &&& final(self).vertex_buffer.capacity >= old(self).vertex_buffer.capacity
                &&& final(self).index_buffer.capacity >= data.total_idx_count
                &&& final(self).index_buffer.capacity >= old(self).index_buffer.capacity
                &&& final(self).textures == old(self).textures
                &&& final(self).font_resource_view == old(self).font_resource_view
                &&& plan.grow_vertex == (if old(self).vertex_buffer.capacity
                    < data.total_vtx_count {
                    Some(final(self).vertex_buffer.capacity)
                } else {
                    None::<u32>
                })
                &&& plan.grow_index == (if old(self).index_buffer.capacity
                    < data.total_idx_count {
                    Some(final(self).index_buffer.capacity)
                } else {
                    None::<u32>
                })
                &&& plan.upload@ == upload_layout_spec(data.draw_lists@)
                &&& plan.projection == Some(
                    projection_spec(
                        data.display_pos_x as int,
                        data.display_pos_y as int,
                        data.display_size_w as int,
                        data.display_size_h as int,
                    ),
                )
                &&& plan.calls@ == seq![
                    GpuCall::SetupRenderState {
                        viewport: viewport_spec(
                            data.display_size_w as int,
                            data.display_size_h as int,
                            data.fb_scale_x,
                            data.fb_scale_y,
                        ),
                    },
                ] + t.calls
                &&& plan.error == t.error
            }),
    {
        if data.display_size_w <= 0 || data.display_size_h <= 0 {
            return RenderPlan {
                grow_vertex: None,
                grow_index: None,
                upload: Vec::new(),
                projection: None,
                calls: Vec::new(),
                error: None,
            };
        }
        let grow_vertex = self.vertex_buffer.ensure_capacity(
            data.total_vtx_count,
            VERTEX_BUF_ADD_CAPACITY,
        );
        let grow_index = self.index_buffer.ensure_capacity(
            data.total_idx_count,
            INDEX_BUF_ADD_CAPACITY,
        );
        let upload = upload_layout(data);
        let projection = projection_matrix(
            data.display_pos_x,
            data.display_pos_y,
            data.display_size_w,
            data.display_size_h,
        );
        let viewport = viewport_size(
            data.display_size_w,
            data.display_size_h,
            data.fb_scale_x,
            data.fb_scale_y,
        );
        let (mut translated, error) = translate(data, &self.textures, self.font_resource_view);
        let mut calls: Vec<GpuCall> = Vec::new();
        calls.push(GpuCall::SetupRenderState { viewport });
        calls.append(&mut translated);
        RenderPlan { grow_vertex, grow_index, upload, projection: Some(projection), calls, error }
    }
}

} // verus!
