use vstd::prelude::*;
use crate::geom::{ClipRect, Scale, MAX_COORD};
use crate::{INDEX_BUF_ADD_CAPACITY, VERTEX_BUF_ADD_CAPACITY};

verus! {

/// One draw instruction within a draw list.
#[derive(Clone, Copy, Debug, PartialEq, Eq, Structural)]
pub enum DrawCmd {
    /// Draw `count` indices as textured triangles, scissored to the clip
    /// rectangle, sampling the texture named by `texture_id`.
    Elements { count: u32, clip_rect: ClipRect, texture_id: u64 },
    /// Reapply the renderer's fixed pipeline state. Callback authors issue
    /// this to chain back into ordinary draw commands.
    ResetRenderState,
    /// A host-supplied callback that may mutate the context state
    /// arbitrarily. The token names the callback on the host's side.
    RawCallback { token: u64 },
}

impl DrawCmd {
    /// How many indices the command consumes from the shared index buffer.
    pub open spec fn idx_consumed(self) -> int {
        match self {
            DrawCmd::Elements { count, .. } => count as int,
            _ => 0,
        }
    }

    /// The clip rectangle, where there is one, is within the coordinate
    /// budget.
    pub open spec fn wf(self) -> bool {
        match self {
            DrawCmd::Elements { clip_rect, .. } => clip_rect.wf(),
            _ => true,
        }
    }
}

/// Indices consumed by a span of commands.
pub open spec fn sum_idx_consumed(cmds: Seq<DrawCmd>) -> int
    decreases cmds.len(),
{
    if cmds.len() == 0 {
        0
    } else {
        cmds[0].idx_consumed() + sum_idx_consumed(cmds.drop_first())
    }
}

/// One GUI window or layer: its contiguous vertex and index data (owned by
/// the GUI library; the model carries the counts) plus its draw commands.
pub struct DrawList {
    pub vtx_count: u32,
    pub idx_count: u32,
    pub commands: Vec<DrawCmd>,
}

impl DrawList {
    /// The list's commands consume exactly its index data, and each command
    /// is well formed.
    pub open spec fn wf(self) -> bool {
        &&& sum_idx_consumed(self.commands@) == self.idx_count as int
        &&& forall|i: int| 0 <= i < self.commands@.len() ==> (#[trigger] self.commands@[i]).wf()
    }
}

/// Vertices held by a span of draw lists.
pub open spec fn sum_vtx_counts(lists: Seq<DrawList>) -> int
    decreases lists.len(),
{
    if lists.len() == 0 {
        0
    } else {
        lists[0].vtx_count as int + sum_vtx_counts(lists.drop_first())
    }
}

/// Indices held by a span of draw lists.
pub open spec fn sum_idx_counts(lists: Seq<DrawList>) -> int
    decreases lists.len(),
{
    if lists.len() == 0 {
        0
    } else {
        lists[0].idx_count as int + sum_idx_counts(lists.drop_first())
    }
}

/// A frame handed over by the GUI library: ordered draw lists plus the
/// display placement and the framebuffer scale. Coordinates are in exact
/// logical units; the device adapter converts the GUI library's native
/// representation.
pub struct DrawData {
    pub display_pos_x: i32,
    pub display_pos_y: i32,
    pub display_size_w: i32,
    pub display_size_h: i32,
    pub fb_scale_x: Scale,
    pub fb_scale_y: Scale,
    pub draw_lists: Vec<DrawList>,
    pub total_vtx_count: u32,
    pub total_idx_count: u32,
}

impl DrawData {
    /// Nothing to draw: the display is empty in at least one dimension.
    pub open spec fn degenerate(self) -> bool {
        self.display_size_w <= 0 || self.display_size_h <= 0
    }

    /// The frame invariant the GUI library maintains: the totals count
    /// exactly the lists' data, every command references only data uploaded
    /// for this frame, coordinates and scales are within the machine budget,
    /// and the totals leave room for the growth slack.
    pub open spec fn wf(self) -> bool {
        &&& sum_vtx_counts(self.draw_lists@) == self.total_vtx_count as int
        &&& sum_idx_counts(self.draw_lists@) == self.total_idx_count as int
        &&& self.total_vtx_count + VERTEX_BUF_ADD_CAPACITY <= u32::MAX
        &&& self.total_idx_count + INDEX_BUF_ADD_CAPACITY <= u32::MAX
        &&& forall|i: int| 0 <= i < self.draw_lists@.len() ==> (#[trigger] self.draw_lists@[i]).wf()
        &&& -MAX_COORD <= self.display_pos_x <= MAX_COORD
        &&& -MAX_COORD <= self.display_pos_y <= MAX_COORD
        &&& -MAX_COORD <= self.display_size_w <= MAX_COORD
        &&& -MAX_COORD <= self.display_size_h <= MAX_COORD
        &&& self.fb_scale_x.wf()
        &&& self.fb_scale_y.wf()
    }
}

/// Appending one list adds its vertex count to the span's total.
pub proof fn lemma_sum_vtx_push(lists: Seq<DrawList>, x: DrawList)
    ensures
        sum_vtx_counts(lists.push(x)) == sum_vtx_counts(lists) + x.vtx_count as int,
    decreases lists.len(),
{
    if lists.len() == 0 {
        assert(lists.push(x)[0] == x);
        assert(lists.push(x).drop_first() =~= Seq::<DrawList>::empty());
        assert(sum_vtx_counts(lists.push(x)) == x.vtx_count as int + sum_vtx_counts(
            Seq::<DrawList>::empty(),
        ));
    } else {
        assert(lists.push(x)[0] == lists[0]);
        assert(lists.push(x).drop_first() =~= lists.drop_first().push(x));
        lemma_sum_vtx_push(lists.drop_first(), x);
        assert(sum_vtx_counts(lists.push(x)) == lists[0].vtx_count as int + sum_vtx_counts(
            lists.drop_first().push(x),
        ));
        assert(sum_vtx_counts(lists) == lists[0].vtx_count as int + sum_vtx_counts(
            lists.drop_first(),
        ));
    }
}

/// Appending one list adds its index count to the span's total.
pub proof fn lemma_sum_idx_push(lists: Seq<DrawList>, x: DrawList)
    ensures
        sum_idx_counts(lists.push(x)) == sum_idx_counts(lists) + x.idx_count as int,
    decreases lists.len(),
{
    if lists.len() == 0 {
        assert(lists.push(x)[0] == x);
        assert(lists.push(x).drop_first() =~= Seq::<DrawList>::empty());
        assert(sum_idx_counts(lists.push(x)) == x.idx_count as int + sum_idx_counts(
            Seq::<DrawList>::empty(),
        ));
    } else {
        assert(lists.push(x)[0] == lists[0]);
        assert(lists.push(x).drop_first() =~= lists.drop_first().push(x));
        lemma_sum_idx_push(lists.drop_first(), x);
        assert(sum_idx_counts(lists.push(x)) == lists[0].idx_count as int + sum_idx_counts(
            lists.drop_first().push(x),
        ));
        assert(sum_idx_counts(lists) == lists[0].idx_count as int + sum_idx_counts(
            lists.drop_first(),
        ));
    }
}

/// Every span of commands consumes a non-negative number of indices.
pub proof fn lemma_sum_idx_consumed_nonneg(cmds: Seq<DrawCmd>)
    ensures
        sum_idx_consumed(cmds) >= 0,
    decreases cmds.len(),
{
    if cmds.len() > 0 {
        lemma_sum_idx_consumed_nonneg(cmds.drop_first());
    }
}

/// Every span of lists holds a non-negative number of vertices.
pub proof fn lemma_sum_vtx_counts_nonneg(lists: Seq<DrawList>)
    ensures
        sum_vtx_counts(lists) >= 0,
    decreases lists.len(),
{
    if lists.len() > 0 {
        lemma_sum_vtx_counts_nonneg(lists.drop_first());
    }
}

/// Every span of lists holds a non-negative number of indices.
pub proof fn lemma_sum_idx_counts_nonneg(lists: Seq<DrawList>)
    ensures
        sum_idx_counts(lists) >= 0,
    decreases lists.len(),
{
    if lists.len() > 0 {
        lemma_sum_idx_counts_nonneg(lists.drop_first());
    }
}

} // verus!
