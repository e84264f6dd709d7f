use vstd::prelude::*;
use crate::draw_data::{
    lemma_sum_idx_counts_nonneg, lemma_sum_idx_push, lemma_sum_vtx_counts_nonneg,
    lemma_sum_vtx_push, sum_idx_counts, sum_vtx_counts, DrawData, DrawList,
};

verus! {

/// Where one draw list's data lands in the shared GPU buffers: the element
/// offsets at which its vertices and indices begin. Lists are packed
/// contiguously in draw-list order, so each offset is the sum of the counts
/// of the lists before it.
#[derive(Clone, Copy, Debug, PartialEq, Eq, Structural)]
pub struct UploadSlot {
    pub vtx_offset: u32,
    pub idx_offset: u32,
}

/// The copy layout of a frame: for each draw list, the offsets of its
/// vertex and index data in the mapped buffers.
pub open spec fn upload_layout_spec(lists: Seq<DrawList>) -> Seq<UploadSlot> {
    Seq::new(
        lists.len(),
        |i: int|
            UploadSlot {
                vtx_offset: sum_vtx_counts(lists.take(i)) as u32,
                idx_offset: sum_idx_counts(lists.take(i)) as u32,
            },
    )
}

/// Compute the copy layout of a frame: one slot per draw list, with the
/// write cursor advancing by each list's counts.
#[verifier::loop_isolation(false)]
pub fn upload_layout(data: &DrawData) -> (r: Vec<UploadSlot>)
    requires
        data.wf(),
    ensures
        r@ == upload_layout_spec(data.draw_lists@),
{
    let ghost lists = data.draw_lists@;
    let mut r: Vec<UploadSlot> = Vec::new();
    let mut vtx: u32 = 0;
    let mut idx: u32 = 0;
    proof {
        assert(lists.skip(0) =~= lists);
        assert(lists.take(0) =~= Seq::<DrawList>::empty());
    }
    let mut li: usize = 0;
    while li < data.draw_lists.len()
        invariant
            li <= lists.len(),
            r@.len() == li,
            vtx == sum_vtx_counts(lists.take(li as int)),
            idx == sum_idx_counts(lists.take(li as int)),
            vtx + sum_vtx_counts(lists.skip(li as int)) == data.total_vtx_count as int,
            idx + sum_idx_counts(lists.skip(li as int)) == data.total_idx_count as int,
            forall|k: int| 0 <= k < li ==> r@[k] == upload_layout_spec(lists)[k],
        decreases lists.len() - li,
    {
        proof {
            assert(lists.skip(li as int)[0] == lists[li as int]);
            assert(lists.skip(li as int).drop_first() =~= lists.skip(li as int + 1));
            assert(lists.take(li as int + 1) =~= lists.take(li as int).push(lists[li as int]));
            lemma_sum_vtx_push(lists.take(li as int), lists[li as int]);
            lemma_sum_idx_push(lists.take(li as int), lists[li as int]);
            lemma_sum_vtx_counts_nonneg(lists.skip(li as int + 1));
            lemma_sum_idx_counts_nonneg(lists.skip(li as int + 1));
        }
        r.push(UploadSlot { vtx_offset: vtx, idx_offset: idx });
        let list = &data.draw_lists[li];
        vtx = vtx + list.vtx_count;
        idx = idx + list.idx_count;
        li = li + 1;
    }
    proof {
        assert(r@ =~= upload_layout_spec(lists));
    }
    r
}

} // verus!
