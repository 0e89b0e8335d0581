//! Frame-level laws of the renderer, proved once and for all inputs.

use vstd::prelude::*;
use crate::draw_list::{DrawCommand, DrawData};
use crate::gpu::GpuOp;
use crate::renderer::{
    cmd_plan, cmds_plan, frame_epilogue, frame_prelude, render_plan, segment_plan, segment_setup,
    segments_plan, Renderer,
};

verus! {

/// Number of indexed draws in an operation sequence.
pub open spec fn count_draw_ops(ops: Seq<GpuOp>) -> int
    decreases ops.len(),
{
    if ops.len() == 0 {
        0
    } else {
        count_draw_ops(ops.drop_last()) + (if ops.last() is DrawIndexedTriangles {
            1int
        } else {
            0int
        })
    }
}

pub proof fn lemma_count_draw_ops_add(a: Seq<GpuOp>, b: Seq<GpuOp>)
    ensures
        count_draw_ops(a + b) == count_draw_ops(a) + count_draw_ops(b),
    decreases b.len(),
{
    if b.len() == 0 {
        assert(a + b =~= a);
    } else {
        lemma_count_draw_ops_add(a, b.drop_last());
        assert((a + b).drop_last() =~= a + b.drop_last());
    }
}

/// Number of elements-kind commands among the first `n` of a command list.
pub open spec fn count_elements_cmds(cmds: Seq<DrawCommand>, n: int) -> int
    decreases n,
{
    if n <= 0 {
        0
    } else {
        count_elements_cmds(cmds, n - 1) + (if cmds[n - 1] is Elements {
            1int
        } else {
            0int
        })
    }
}

pub open spec fn count_elements_segments(d: DrawData, n: int) -> int
    decreases n,
{
    if n <= 0 {
        0
    } else {
        count_elements_segments(d, n - 1) + count_elements_cmds(
            d.segments@[n - 1].commands@,
            d.segments@[n - 1].commands@.len() as int,
        )
    }
}

/// Total number of elements-kind commands across all segments.
pub open spec fn total_elements_cmds(d: DrawData) -> int {
    count_elements_segments(d, d.segments@.len() as int)
}

/// Every elements command of the draw-list asks for at least one index.
pub open spec fn all_counts_positive(d: DrawData) -> bool {
    forall|i: int, j: int|
        0 <= i < d.segments@.len() && 0 <= j < d.segments@[i].commands@.len() ==> ((
        #[trigger] d.segments@[i].commands@[j]) matches DrawCommand::Elements { count, .. }
            ==> count > 0)
}

/// A degenerate frame (framebuffer width or height not strictly positive)
/// performs no GPU operation at all and so leaves all GPU state unchanged.
pub proof fn lemma_degenerate_frame_is_noop(r: Renderer, d: DrawData)
    requires
        d.degenerate(),
    ensures
        render_plan(r, d) == Seq::<GpuOp>::empty(),
        count_draw_ops(render_plan(r, d)) == 0,
{
}

/// The rendered operation sequence is a function of the draw-list alone:
/// rendering identical input twice yields identical GPU state transitions.
pub proof fn lemma_render_deterministic(r: Renderer, d1: DrawData, d2: DrawData)
    requires
        d1 == d2,
    ensures
        render_plan(r, d1) == render_plan(r, d2),
{
}

proof fn lemma_cmd_plan_draws(d: DrawData, c: DrawCommand)
    requires
        c matches DrawCommand::Elements { count, .. } ==> count > 0,
    ensures
        count_draw_ops(cmd_plan(d, c)) == (if c is Elements {
            1int
        } else {
            0int
        }),
{
    reveal_with_fuel(count_draw_ops, 5);
}

proof fn lemma_cmds_plan_draws(d: DrawData, cmds: Seq<DrawCommand>, n: int)
    requires
        forall|j: int|
            0 <= j < n ==> ((#[trigger] cmds[j]) matches DrawCommand::Elements { count, .. }
                ==> count > 0),
    ensures
        count_draw_ops(cmds_plan(d, cmds, n)) == count_elements_cmds(cmds, n),
    decreases n,
{
    if n > 0 {
        lemma_cmds_plan_draws(d, cmds, n - 1);
        lemma_count_draw_ops_add(cmds_plan(d, cmds, n - 1), cmd_plan(d, cmds[n - 1]));
        lemma_cmd_plan_draws(d, cmds[n - 1]);
    }
}

proof fn lemma_no_elements_zero(cmds: Seq<DrawCommand>, n: int)
    requires
        forall|j: int| 0 <= j < n ==> !((#[trigger] cmds[j]) is Elements),
    ensures
        count_elements_cmds(cmds, n) == 0,
    decreases n,
{
    if n > 0 {
        lemma_no_elements_zero(cmds, n - 1);
    }
}

proof fn lemma_segment_setup_no_draws(r: Renderer, i: int)
    ensures
        count_draw_ops(segment_setup(r, i)) == 0,
{
    reveal_with_fuel(count_draw_ops, 8);
}

proof fn lemma_segment_plan_draws(r: Renderer, d: DrawData, i: int)
    requires
        d.wf(),
        all_counts_positive(d),
        0 <= i < d.segments@.len(),
    ensures
        count_draw_ops(segment_plan(r, d, i)) == count_elements_cmds(
            d.segments@[i].commands@,
            d.segments@[i].commands@.len() as int,
        ),
{
    let seg = d.segments@[i];
    assert(seg.wf_in(d));
    if seg.is_empty() {
        // An empty segment cannot carry an elements command: a positive
        // count needs indices, and a resolvable index needs vertices.
        assert forall|j: int| 0 <= j < seg.commands@.len() implies !((#[trigger] seg.commands@[j])
            is Elements) by {
            assert(seg.commands@[j].wf_in(seg));
            match seg.commands@[j] {
                DrawCommand::Elements { count, vtx_offset, idx_offset, .. } => {
                    assert(count > 0);
                    assert(idx_offset + count <= seg.indices@.len());
                    assert(vtx_offset + seg.indices@[idx_offset as int] < seg.vertices@.len());
                    assert(false);
                },
                DrawCommand::Reserved => {},
            }
        }
        lemma_no_elements_zero(seg.commands@, seg.commands@.len() as int);
    } else {
        lemma_count_draw_ops_add(
            segment_setup(r, i),
            cmds_plan(d, seg.commands@, seg.commands@.len() as int),
        );
        lemma_segment_setup_no_draws(r, i);
        lemma_cmds_plan_draws(d, seg.commands@, seg.commands@.len() as int);
    }
}

proof fn lemma_segments_plan_draws(r: Renderer, d: DrawData, n: int)
    requires
        d.wf(),
        all_counts_positive(d),
        0 <= n <= d.segments@.len(),
    ensures
        count_draw_ops(segments_plan(r, d, n)) == count_elements_segments(d, n),
    decreases n,
{
    if n > 0 {
        lemma_segments_plan_draws(r, d, n - 1);
        lemma_count_draw_ops_add(segments_plan(r, d, n - 1), segment_plan(r, d, n - 1));
        lemma_segment_plan_draws(r, d, n - 1);
    }
}

/// For a well-formed, non-degenerate frame whose elements commands all ask
/// for at least one index, the frame issues exactly one indexed draw per
/// elements command; reserved command kinds are never drawn.
pub proof fn lemma_draws_match_commands(r: Renderer, d: DrawData)
    requires
        d.wf(),
        !d.degenerate(),
        all_counts_positive(d),
    ensures
        count_draw_ops(render_plan(r, d)) == total_elements_cmds(d),
{
    let body = segments_plan(r, d, d.segments@.len() as int);
    lemma_count_draw_ops_add(frame_prelude(r, d) + body, frame_epilogue());
    lemma_count_draw_ops_add(frame_prelude(r, d), body);
    assert(count_draw_ops(frame_prelude(r, d)) == 0) by {
        reveal_with_fuel(count_draw_ops, 7);
    }
    assert(count_draw_ops(frame_epilogue()) == 0) by {
        reveal_with_fuel(count_draw_ops, 6);
    }
    lemma_segments_plan_draws(r, d, d.segments@.len() as int);
}

} // verus!
