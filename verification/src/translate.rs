use vstd::prelude::*;
use crate::draw_data::{
    lemma_sum_idx_consumed_nonneg, lemma_sum_idx_counts_nonneg, lemma_sum_vtx_counts_nonneg,
    sum_idx_consumed, sum_idx_counts, sum_vtx_counts, DrawCmd, DrawData, DrawList,
};
use crate::geom::{
    scissor_rect, scissor_spec, viewport_size, viewport_spec, ClipRect, Scale, ScissorRect,
    Viewport,
};
use crate::textures::TextureRegistry;
use crate::FONT_TEX_ID;

verus! {

/// Why a frame was abandoned mid-translation.
#[derive(Clone, Copy, Debug, PartialEq, Eq, Structural)]
pub enum RenderError {
    /// A draw command referenced a texture identifier that is not registered.
    /// Rendering stops at the offending command rather than drawing with a
    /// wrong or stale texture.
    TextureNotFound { texture_id: u64 },
}

/// One configuration or draw call for the device context. A frame's
/// translation is the ordered sequence of these calls.
#[derive(Clone, Copy, Debug, PartialEq, Eq, Structural)]
pub enum GpuCall {
    /// Apply the renderer's fixed pipeline state (topology, layout, buffers,
    /// shaders, blend/rasterizer/depth-stencil state) and this viewport.
    SetupRenderState { viewport: Viewport },
    /// Bind a shader-resource view to the pixel-shader texture slot.
    BindTexture { handle: u64 },
    /// Set the scissor rectangle, in framebuffer pixels.
    SetScissor { rect: ScissorRect },
    /// Issue an indexed draw call: `count` indices starting at `first_index`,
    /// with `base_vertex` added to every index.
    DrawIndexed { count: u32, first_index: u32, base_vertex: u32 },
    /// Invoke the host-supplied callback registered under this token. The
    /// callback may leave the context state arbitrary.
    Callback { token: u64 },
}

/// The translator's running state: the texture bound by the previous
/// command and the accumulated base offsets into the shared buffers.
#[derive(Clone, Copy, Debug, PartialEq, Eq, Structural)]
pub struct TransState {
    pub last_tex: u64,
    pub vtx_offset: u32,
    pub idx_offset: u32,
}

/// Everything that stays fixed while one frame is translated: the registry
/// contents, the font view handle, the display offset, the framebuffer scale
/// and the viewport.
pub ghost struct TransEnv {
    pub reg: Map<u64, u64>,
    pub font: u64,
    pub off_x: int,
    pub off_y: int,
    pub scale_x: Scale,
    pub scale_y: Scale,
    pub viewport: Viewport,
}

/// Result of translating a span of commands or lists: the calls emitted, the
/// translator state afterwards, and the error that stopped translation, if
/// one did.
pub ghost struct TransResult {
    pub calls: Seq<GpuCall>,
    pub state: TransState,
    pub error: Option<RenderError>,
}

/// Resolve a command's texture identifier: the reserved font identifier
/// denotes the font atlas view without a lookup; every other identifier must
/// be registered.
pub open spec fn resolve_spec(reg: Map<u64, u64>, font: u64, texture_id: u64) -> Option<u64> {
    if texture_id == FONT_TEX_ID {
        Some(font)
    } else if reg.contains_key(texture_id) {
        Some(reg[texture_id])
    } else {
        None
    }
}

/// The environment of one frame's translation.
pub open spec fn frame_env(data: DrawData, reg: Map<u64, u64>, font: u64) -> TransEnv {
    TransEnv {
        reg,
        font,
        off_x: data.display_pos_x as int,
        off_y: data.display_pos_y as int,
        scale_x: data.fb_scale_x,
        scale_y: data.fb_scale_y,
        viewport: viewport_spec(
            data.display_size_w as int,
            data.display_size_h as int,
            data.fb_scale_x,
            data.fb_scale_y,
        ),
    }
}

/// The translator's state at the start of a frame: the font atlas is bound,
/// both offsets are zero.
pub open spec fn init_state() -> TransState {
    TransState { last_tex: FONT_TEX_ID, vtx_offset: 0, idx_offset: 0 }
}

/// Translation of one draw command. An `Elements` command rebinds the
/// texture only when it differs from the previously bound one; an
/// unregistered identifier stops the frame. The scissor rectangle is
/// recomputed for every `Elements` command, and the draw call uses the
/// accumulated offsets.
pub open spec fn step_cmd(cmd: DrawCmd, st: TransState, env: TransEnv) -> TransResult {
    match cmd {
        DrawCmd::Elements { count, clip_rect, texture_id } => {
            if texture_id != st.last_tex && resolve_spec(env.reg, env.font, texture_id) is None {
                TransResult {
                    calls: Seq::empty(),
                    state: st,
                    error: Some(RenderError::TextureNotFound { texture_id }),
                }
            } else {
                let bind: Seq<GpuCall> = if texture_id != st.last_tex {
                    seq![GpuCall::BindTexture {
                        handle: resolve_spec(env.reg, env.font, texture_id).unwrap(),
                    }]
                } else {
                    Seq::empty()
                };
                TransResult {
                    calls: bind + seq![
                        GpuCall::SetScissor {
                            rect: scissor_spec(clip_rect, env.off_x, env.off_y, env.scale_x, env.scale_y),
                        },
                        GpuCall::DrawIndexed {
                            count,
                            first_index: st.idx_offset,
                            base_vertex: st.vtx_offset,
                        },
                    ],
                    state: TransState {
                        last_tex: texture_id,
                        vtx_offset: st.vtx_offset,
                        idx_offset: (st.idx_offset + count) as u32,
                    },
                    error: None,
                }
            }
        },
        DrawCmd::ResetRenderState => TransResult {
            calls: seq![GpuCall::SetupRenderState { viewport: env.viewport }],
            state: st,
            error: None,
        },
        DrawCmd::RawCallback { token } => TransResult {
            calls: seq![GpuCall::Callback { token }],
            state: st,
            error: None,
        },
    }
}

/// Texture resolution: when an `Elements` command switches textures, the
/// reserved font identifier binds the font atlas view, a registered
/// identifier binds its registered view, and an unknown identifier stops the
/// frame with a texture-not-found error, emitting no call at all — so no
/// further draw call of the frame is issued.
pub proof fn lemma_texture_resolution(
    count: u32,
    clip_rect: ClipRect,
    texture_id: u64,
    st: TransState,
    env: TransEnv,
)
    requires
        texture_id != st.last_tex,
    ensures
        ({
            let r = step_cmd(DrawCmd::Elements { count, clip_rect, texture_id }, st, env);
            &&& texture_id == FONT_TEX_ID ==> r.error is None && r.calls[0] == (GpuCall::BindTexture {
                handle: env.font,
            })
            &&& texture_id != FONT_TEX_ID && env.reg.contains_key(texture_id) ==> r.error is None
                && r.calls[0] == (GpuCall::BindTexture { handle: env.reg[texture_id] })
            &&& texture_id != FONT_TEX_ID && !env.reg.contains_key(texture_id) ==> r.error == Some(
                RenderError::TextureNotFound { texture_id },
            ) && r.calls == Seq::<GpuCall>::empty()
        }),
{
}

/// Translation of a span of commands, stopping at the first error.
pub open spec fn run_cmds(cmds: Seq<DrawCmd>, st: TransState, env: TransEnv) -> TransResult
    decreases cmds.len(),
{
    if cmds.len() == 0 {
        TransResult { calls: Seq::empty(), state: st, error: None }
    } else {
        let first = step_cmd(cmds[0], st, env);
        if first.error is Some {
            first
        } else {
            let rest = run_cmds(cmds.drop_first(), first.state, env);
            TransResult { calls: first.calls + rest.calls, state: rest.state, error: rest.error }
        }
    }
}

/// Translation of a span of draw lists. The vertex offset advances by a
/// whole list's vertex count once per list, because indices within a list
/// are list-relative and the draw call receives the base vertex.
pub open spec fn run_lists(lists: Seq<DrawList>, st: TransState, env: TransEnv) -> TransResult
    decreases lists.len(),
{
    if lists.len() == 0 {
        TransResult { calls: Seq::empty(), state: st, error: None }
    } else {
        let head = run_cmds(lists[0].commands@, st, env);
        if head.error is Some {
            head
        } else {
            let st1 = TransState {
                last_tex: head.state.last_tex,
                vtx_offset: (head.state.vtx_offset + lists[0].vtx_count) as u32,
                idx_offset: head.state.idx_offset,
            };
            let rest = run_lists(lists.drop_first(), st1, env);
            TransResult { calls: head.calls + rest.calls, state: rest.state, error: rest.error }
        }
    }
}

/// The full translation of a frame: the font atlas view is bound first, then
/// the draw lists are translated in order.
pub open spec fn translate_spec(data: DrawData, reg: Map<u64, u64>, font: u64) -> TransResult {
    let r = run_lists(data.draw_lists@, init_state(), frame_env(data, reg, font));
    TransResult {
        calls: seq![GpuCall::BindTexture { handle: font }] + r.calls,
        state: r.state,
        error: r.error,
    }
}

/// Translate one draw list's commands, appending the emitted calls to `out`
/// and advancing the translator state. Returns the error that stopped the
/// list, if one did.
#[verifier::loop_isolation(false)]
fn translate_list(
    list: &DrawList,
    st: &mut TransState,
    out: &mut Vec<GpuCall>,
    registry: &TextureRegistry,
    font: u64,
    data: &DrawData,
    viewport: Viewport,
) -> (r: Option<RenderError>)
    requires
        data.wf(),
        list.wf(),
        viewport == frame_env(*data, registry@, font).viewport,
        old(st).idx_offset + sum_idx_consumed(list.commands@) <= u32::MAX,
    ensures
        ({
            let r0 = run_cmds(list.commands@, *old(st), frame_env(*data, registry@, font));
            &&& final(out)@ == old(out)@ + r0.calls
            &&& *final(st) == r0.state
            &&& r == r0.error
        }),
        r is None ==> final(st).idx_offset == old(st).idx_offset + sum_idx_consumed(list.commands@),
        final(st).vtx_offset == old(st).vtx_offset,
{
    let ghost env = frame_env(*data, registry@, font);
    let ghost cmds = list.commands@;
    let ghost st0 = *st;
    let ghost out0 = out@;
    proof {
        assert(cmds.skip(0) =~= cmds);
        assert(out@.skip(out0.len() as int) =~= Seq::<GpuCall>::empty());
    }
    let mut i: usize = 0;
    while i < list.commands.len()
        invariant
            i <= cmds.len(),
            st.vtx_offset == st0.vtx_offset,
            st.idx_offset + sum_idx_consumed(cmds.skip(i as int)) == st0.idx_offset
                + sum_idx_consumed(cmds),
            out@.len() >= out0.len(),
            out@.subrange(0, out0.len() as int) == out0,
            run_cmds(cmds, st0, env) == (TransResult {
                calls: out@.skip(out0.len() as int) + run_cmds(cmds.skip(i as int), *st, env).calls,
                state: run_cmds(cmds.skip(i as int), *st, env).state,
                error: run_cmds(cmds.skip(i as int), *st, env).error,
            }),
        decreases cmds.len() - i,
    {
        let ghost pre_st = *st;
        let ghost pre_out = out@;
        proof {
            assert(cmds.skip(i as int)[0] == cmds[i as int]);
            assert(cmds.skip(i as int).drop_first() =~= cmds.skip(i as int + 1));
            lemma_sum_idx_consumed_nonneg(cmds.skip(i as int + 1));
        }
        match &list.commands[i] {
            DrawCmd::Elements { count, clip_rect, texture_id } => {
                let count: u32 = *count;
                let texture_id: u64 = *texture_id;
                if texture_id != st.last_tex {
                    let resolved: Option<u64> = if texture_id == FONT_TEX_ID {
                        Some(font)
                    } else {
                        registry.lookup_texture(texture_id)
                    };
                    match resolved {
                        None => {
                            proof {
                                let rest = run_cmds(cmds.skip(i as int), pre_st, env);
                                assert(rest.calls =~= Seq::<GpuCall>::empty());
                                assert(out@ =~= out0 + out@.skip(out0.len() as int));
                            }
                            return Some(RenderError::TextureNotFound { texture_id });
                        },
                        Some(handle) => {
                            out.push(GpuCall::BindTexture { handle });
                            st.last_tex = texture_id;
                        },
                    }
                }
                let rect = scissor_rect(
                    clip_rect,
                    data.display_pos_x,
                    data.display_pos_y,
                    data.fb_scale_x,
                    data.fb_scale_y,
                );
                out.push(GpuCall::SetScissor { rect });
                out.push(GpuCall::DrawIndexed {
                    count,
                    first_index: st.idx_offset,
                    base_vertex: st.vtx_offset,
                });
                st.idx_offset = st.idx_offset + count;
            },
            DrawCmd::ResetRenderState => {
                out.push(GpuCall::SetupRenderState { viewport });
            },
            DrawCmd::RawCallback { token } => {
                out.push(GpuCall::Callback { token: *token });
            },
        }
        proof {
            let step = step_cmd(cmds[i as int], pre_st, env);
            assert(out@ =~= pre_out + step.calls);
            assert(out@.subrange(0, out0.len() as int) =~= out0);
            assert(out@.skip(out0.len() as int) =~= pre_out.skip(out0.len() as int) + step.calls);
            let rest_next = run_cmds(cmds.skip(i as int + 1), *st, env);
            assert(run_cmds(cmds.skip(i as int), pre_st, env).calls =~= step.calls + rest_next.calls);
            assert(pre_out.skip(out0.len() as int) + (step.calls + rest_next.calls) =~= out@.skip(
                out0.len() as int,
            ) + rest_next.calls);
        }
        i = i + 1;
    }
    proof {
        assert(cmds.skip(cmds.len() as int) =~= Seq::<DrawCmd>::empty());
        assert(out@ =~= out0 + out@.skip(out0.len() as int));
    }
    None
}

/// Translate a frame into the ordered sequence of device calls that draws
/// it: the font atlas is bound, then every draw list's commands are issued
/// with accumulated buffer offsets. Translation stops at the first draw
/// command whose texture identifier is not registered, returning the calls
/// emitted so far together with the error.
#[verifier::loop_isolation(false)]
pub fn translate(data: &DrawData, registry: &TextureRegistry, font: u64) -> (r: (
    Vec<GpuCall>,
    Option<RenderError>,
))
    requires
        data.wf(),
    ensures
        ({
            let t = translate_spec(*data, registry@, font);
            &&& r.0@ == t.calls
            &&& r.1 == t.error
        }),
{
    let viewport = viewport_size(
        data.display_size_w,
        data.display_size_h,
        data.fb_scale_x,
        data.fb_scale_y,
    );
    let ghost env = frame_env(*data, registry@, font);
    let ghost lists = data.draw_lists@;
    let mut out: Vec<GpuCall> = Vec::new();
    out.push(GpuCall::BindTexture { handle: font });
    let mut st = TransState { last_tex: FONT_TEX_ID, vtx_offset: 0, idx_offset: 0 };
    proof {
        assert(lists.skip(0) =~= lists);
        assert(out@.skip(1) =~= Seq::<GpuCall>::empty());
    }
    let mut li: usize = 0;
    while li < data.draw_lists.len()
        invariant
            li <= lists.len(),
            st.vtx_offset + sum_vtx_counts(lists.skip(li as int)) == data.total_vtx_count as int,
            st.idx_offset + sum_idx_counts(lists.skip(li as int)) == data.total_idx_count as int,
            out@.len() >= 1,
            out@[0] == (GpuCall::BindTexture { handle: font }),
            run_lists(lists, init_state(), env) == (TransResult {
                calls: out@.skip(1) + run_lists(lists.skip(li as int), st, env).calls,
                state: run_lists(lists.skip(li as int), st, env).state,
                error: run_lists(lists.skip(li as int), st, env).error,
            }),
        decreases lists.len() - li,
    {
        proof {
            assert(lists.skip(li as int)[0] == lists[li as int]);
            assert(lists.skip(li as int).drop_first() =~= lists.skip(li as int + 1));
            assert(lists[li as int].wf());
            lemma_sum_idx_counts_nonneg(lists.skip(li as int + 1));
            lemma_sum_vtx_counts_nonneg(lists.skip(li as int + 1));
        }
        let list = &data.draw_lists[li];
        let ghost pre_st = st;
        let ghost pre_out = out@;
        let e = translate_list(list, &mut st, &mut out, registry, font, data, viewport);
        let ghost head = run_cmds(list.commands@, pre_st, env);
        if let Some(err) = e {
            proof {
                assert(run_lists(lists.skip(li as int), pre_st, env) == head);
                assert(out@.skip(1) =~= pre_out.skip(1) + head.calls);
                assert(seq![GpuCall::BindTexture { handle: font }] + out@.skip(1) =~= out@);
            }
            return (out, Some(err));
        }
        st.vtx_offset = st.vtx_offset + list.vtx_count;
        proof {
            let st1 = TransState {
                last_tex: head.state.last_tex,
                vtx_offset: (head.state.vtx_offset + lists[li as int].vtx_count) as u32,
                idx_offset: head.state.idx_offset,
            };
            assert(st == st1);
            let rest_next = run_lists(lists.skip(li as int + 1), st1, env);
            assert(run_lists(lists.skip(li as int), pre_st, env).calls =~= head.calls
                + rest_next.calls);
            assert(out@.skip(1) =~= pre_out.skip(1) + head.calls);
            assert(pre_out.skip(1) + (head.calls + rest_next.calls) =~= out@.skip(1)
                + rest_next.calls);
        }
        li = li + 1;
    }
    proof {
        assert(lists.skip(lists.len() as int) =~= Seq::<DrawList>::empty());
        assert(seq![GpuCall::BindTexture { handle: font }] + out@.skip(1) =~= out@);
    }
    (out, None)
}

} // verus!
