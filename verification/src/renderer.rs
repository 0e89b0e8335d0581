//! The renderer: long-lived GPU object names, and the per-frame replay of a
//! draw-list as an exact sequence of GPU operations.

use vstd::prelude::*;
use crate::atlas::{atlas_plan, FontAtlas};
use crate::geometry::INDEX_SIZE;
use crate::draw_list::{DrawCommand, DrawData};
use crate::gpu::GpuOp;
use crate::projection::{projection_matrix, spec_projection};
use crate::scissor::{compute_scissor, spec_scissor};

verus! {

/// The renderer owns one shader program, one font texture, one vertex-array
/// object and one reusable vertex and index buffer, all by their 32-bit
/// names. It is constructed once, renders any number of frames, and is
/// consumed by `cleanup`, which releases every owned object exactly once.
pub struct Renderer {
    pub program: u32,
    pub font_texture: u32,
    pub vao: u32,
    pub vbo: u32,
    pub ebo: u32,
}

/// Operations that open a frame: viewport over the whole framebuffer, alpha
/// blending, the program with its projection matrix, and the sampler on
/// texture unit zero.
pub open spec fn frame_prelude(r: Renderer, d: DrawData) -> Seq<GpuOp> {
    seq![
        GpuOp::SetViewport {
            x: 0i32,
            y: 0i32,
            width: d.fb_width() as i32,
            height: d.fb_height() as i32,
        },
        GpuOp::EnableAlphaBlend,
        GpuOp::UseProgram { program: r.program },
        GpuOp::SetProjection { program: r.program, matrix: spec_projection(d) },
        GpuOp::SetTextureSamplerUnit { program: r.program, unit: 0i32 },
    ]
}

/// Operations that close a frame: no vertex array, buffer or texture is left
/// bound, so the frame is state-neutral for unrelated rendering after it.
pub open spec fn frame_epilogue() -> Seq<GpuOp> {
    seq![
        GpuOp::UnbindVertexArray,
        GpuOp::UnbindArrayBuffer,
        GpuOp::UnbindElementBuffer,
        GpuOp::UnbindTexture,
    ]
}

/// The operations of one draw command: scissor, texture, then one indexed
/// draw of `count` indices starting `idx_offset` entries into the index
/// buffer. A command with a zero count, or of a reserved kind, draws
/// nothing.
pub open spec fn cmd_plan(d: DrawData, c: DrawCommand) -> Seq<GpuOp> {
    match c {
        DrawCommand::Elements { count, clip, texture, idx_offset, .. } => {
            if count == 0 {
                Seq::empty()
            } else {
                seq![
                    GpuOp::SetScissor {
                        x: spec_scissor(d, clip).x,
                        y: spec_scissor(d, clip).y,
                        width: spec_scissor(d, clip).width,
                        height: spec_scissor(d, clip).height,
                    },
                    GpuOp::BindTexture { texture },
                    GpuOp::DrawIndexedTriangles {
                        count: count as i32,
                        byte_offset: (idx_offset * INDEX_SIZE) as i32,
                    },
                ]
            }
        },
        DrawCommand::Reserved => Seq::empty(),
    }
}

/// The operations of the first `n` commands of a segment, in order.
pub open spec fn cmds_plan(d: DrawData, cmds: Seq<DrawCommand>, n: int) -> Seq<GpuOp>
    decreases n,
{
    if n <= 0 {
        Seq::empty()
    } else {
        cmds_plan(d, cmds, n - 1) + cmd_plan(d, cmds[n - 1])
    }
}

/// Operations that stage one segment's geometry: bind the long-lived
/// objects, replace both buffers' contents with this segment's data, and
/// re-establish the attribute pointers (the buffer storage may have been
/// reallocated by the upload).
pub open spec fn segment_setup(r: Renderer, i: int) -> Seq<GpuOp> {
    seq![
        GpuOp::BindVertexArray { vao: r.vao },
        GpuOp::BindArrayBuffer { vbo: r.vbo },
        GpuOp::UploadVertexData { segment: i as usize },
        GpuOp::BindElementBuffer { ebo: r.ebo },
        GpuOp::UploadIndexData { segment: i as usize },
        GpuOp::ConfigureVertexLayout { program: r.program },
    ]
}

/// The operations of segment `i`: nothing for an empty segment, otherwise
/// its geometry upload followed by its commands in order.
pub open spec fn segment_plan(r: Renderer, d: DrawData, i: int) -> Seq<GpuOp> {
    let s = d.segments@[i];
    if s.is_empty() {
        Seq::empty()
    } else {
        segment_setup(r, i) + cmds_plan(d, s.commands@, s.commands@.len() as int)
    }
}

/// The operations of the first `n` segments, in order.
pub open spec fn segments_plan(r: Renderer, d: DrawData, n: int) -> Seq<GpuOp>
    decreases n,
{
    if n <= 0 {
        Seq::empty()
    } else {
        segments_plan(r, d, n - 1) + segment_plan(r, d, n - 1)
    }
}

/// Everything one frame performs against the GPU. A degenerate frame
/// (framebuffer width or height not strictly positive) performs nothing at
/// all.
pub open spec fn render_plan(r: Renderer, d: DrawData) -> Seq<GpuOp> {
    if d.degenerate() {
        Seq::empty()
    } else {
        frame_prelude(r, d) + segments_plan(r, d, d.segments@.len() as int) + frame_epilogue()
    }
}

/// The operations that release the renderer's GPU objects: each owned
/// object exactly once.
pub open spec fn cleanup_plan(r: Renderer) -> Seq<GpuOp> {
    seq![
        GpuOp::DeleteProgram { program: r.program },
        GpuOp::DeleteTexture { texture: r.font_texture },
        GpuOp::DeleteVertexArray { vao: r.vao },
        GpuOp::DeleteBuffer { buffer: r.vbo },
        GpuOp::DeleteBuffer { buffer: r.ebo },
    ]
}

impl Renderer {
    /// Record the GPU object names the renderer owns from now on.
    pub fn new(program: u32, font_texture: u32, vao: u32, vbo: u32, ebo: u32) -> (r: Renderer)
        ensures
            r.program == program,
            r.font_texture == font_texture,
            r.vao == vao,
            r.vbo == vbo,
            r.ebo == ebo,
    {
        Renderer { program, font_texture, vao, vbo, ebo }
    }

    /// The operations that upload a (new) font atlas into `texture`; the
    /// renderer owns that texture from now on and no longer references the
    /// old one.
    pub fn upload_font_atlas(&mut self, texture: u32, atlas: &FontAtlas) -> (ops: Vec<GpuOp>)
        requires
            atlas.wf(),
        ensures
            final(self).font_texture == texture,
            final(self).program == old(self).program,
            final(self).vao == old(self).vao,
            final(self).vbo == old(self).vbo,
            final(self).ebo == old(self).ebo,
            ops@ == atlas_plan(texture, *atlas),
    {
        self.font_texture = texture;
        let mut ops: Vec<GpuOp> = Vec::new();
        ops.push(GpuOp::BindTexture { texture });
        ops.push(GpuOp::SetMinFilterLinear);
        ops.push(GpuOp::SetMagFilterLinear);
        ops.push(GpuOp::UploadRgbaTexture { width: atlas.width, height: atlas.height });
        ops.push(GpuOp::SetUnpackRowLength { value: 0 });
        proof {
            assert(ops@ =~= atlas_plan(texture, *atlas));
        }
        ops
    }

    /// Replay one frame's draw-list: compute the exact, ordered sequence of
    /// GPU operations it requires. Performs nothing for a degenerate frame.
    pub fn render(&self, d: &DrawData) -> (ops: Vec<GpuOp>)
        requires
            d.wf(),
        ensures
            ops@ == render_plan(*self, *d),
            d.degenerate() ==> ops@.len() == 0,
    {
        proof {
            crate::arith::lemma_mul_range(
                d.display_w as int,
                d.scale_x as int,
                0x8000_0000,
                0x7fff_ffff,
            );
            crate::arith::lemma_mul_range(
                d.display_h as int,
                d.scale_y as int,
                0x8000_0000,
                0x7fff_ffff,
            );
        }
        let fb_w: i64 = (d.display_w as i64) * (d.scale_x as i64);
        let fb_h: i64 = (d.display_h as i64) * (d.scale_y as i64);
        if fb_w <= 0 || fb_h <= 0 {
            return Vec::new();
        }
        let mut ops: Vec<GpuOp> = Vec::new();
        ops.push(GpuOp::SetViewport { x: 0, y: 0, width: fb_w as i32, height: fb_h as i32 });
        ops.push(GpuOp::EnableAlphaBlend);
        ops.push(GpuOp::UseProgram { program: self.program });
        let m = projection_matrix(d);
        ops.push(GpuOp::SetProjection { program: self.program, matrix: m });
        ops.push(GpuOp::SetTextureSamplerUnit { program: self.program, unit: 0 });
        proof {
            assert(ops@ =~= frame_prelude(*self, *d) + segments_plan(*self, *d, 0));
        }
        let n_segments = d.segments.len();
        for i in 0..n_segments
            invariant
                n_segments == d.segments@.len(),
                d.wf(),
                !d.degenerate(),
                ops@ == frame_prelude(*self, *d) + segments_plan(*self, *d, i as int),
        {
            let seg = &d.segments[i];
            assert(d.segments@[i as int].wf_in(*d));
            if seg.vertices.len() > 0 && seg.indices.len() > 0 {
                ops.push(GpuOp::BindVertexArray { vao: self.vao });
                ops.push(GpuOp::BindArrayBuffer { vbo: self.vbo });
                ops.push(GpuOp::UploadVertexData { segment: i });
                ops.push(GpuOp::BindElementBuffer { ebo: self.ebo });
                ops.push(GpuOp::UploadIndexData { segment: i });
                ops.push(GpuOp::ConfigureVertexLayout { program: self.program });
                proof {
                    assert(ops@ =~= frame_prelude(*self, *d) + segments_plan(*self, *d, i as int)
                        + segment_setup(*self, i as int) + cmds_plan(
                        *d,
                        d.segments@[i as int].commands@,
                        0,
                    ));
                }
                let n_cmds = seg.commands.len();
                for j in 0..n_cmds
                    invariant
                        n_cmds == d.segments@[i as int].commands@.len(),
                        i < d.segments@.len(),
                        d.wf(),
                        !d.degenerate(),
                        seg == &d.segments@[i as int],
                        ops@ == frame_prelude(*self, *d) + segments_plan(*self, *d, i as int)
                            + segment_setup(*self, i as int) + cmds_plan(
                            *d,
                            d.segments@[i as int].commands@,
                            j as int,
                        ),
                {
                    assert(d.segments@[i as int].wf_in(*d));
                    assert(d.segments@[i as int].commands@[j as int].wf_in(d.segments@[i as int]));
                    assert(d.segments@[i as int].commands@[j as int].scissor_fits(*d));
                    match seg.commands[j] {
                        DrawCommand::Elements { count, clip, texture, vtx_offset: _, idx_offset } => {
                            if count > 0 {
                                let s = compute_scissor(d, &clip);
                                ops.push(
                                    GpuOp::SetScissor {
                                        x: s.x,
                                        y: s.y,
                                        width: s.width,
                                        height: s.height,
                                    },
                                );
                                ops.push(GpuOp::BindTexture { texture });
                                ops.push(
                                    GpuOp::DrawIndexedTriangles {
                                        count: count as i32,
                                        byte_offset: (idx_offset * INDEX_SIZE) as i32,
                                    },
                                );
                            }
                        },
                        DrawCommand::Reserved => {},
                    }
                    proof {
                        assert(ops@ =~= frame_prelude(*self, *d) + segments_plan(
                            *self,
                            *d,
                            i as int,
                        ) + segment_setup(*self, i as int) + cmds_plan(
                            *d,
                            d.segments@[i as int].commands@,
                            j + 1,
                        ));
                    }
                }
            }
            proof {
                assert(ops@ =~= frame_prelude(*self, *d) + segments_plan(*self, *d, i + 1));
            }
        }
        ops.push(GpuOp::UnbindVertexArray);
        ops.push(GpuOp::UnbindArrayBuffer);
        ops.push(GpuOp::UnbindElementBuffer);
        ops.push(GpuOp::UnbindTexture);
        proof {
            assert(ops@ =~= render_plan(*self, *d));
        }
        ops
    }

    /// Release every owned GPU object exactly once. Consuming the renderer
    /// makes rendering after cleanup impossible by construction.
    pub fn cleanup(self) -> (ops: Vec<GpuOp>)
        ensures
            ops@ == cleanup_plan(self),
    {
        let mut ops: Vec<GpuOp> = Vec::new();
        ops.push(GpuOp::DeleteProgram { program: self.program });
        ops.push(GpuOp::DeleteTexture { texture: self.font_texture });
        ops.push(GpuOp::DeleteVertexArray { vao: self.vao });
        ops.push(GpuOp::DeleteBuffer { buffer: self.vbo });
        ops.push(GpuOp::DeleteBuffer { buffer: self.ebo });
        proof {
            assert(ops@ =~= cleanup_plan(self));
        }
        ops
    }
}

} // verus!
