//! The per-frame draw description handed to the renderer.
//!
//! A draw-list is an ordered sequence of segments; each segment owns a vertex
//! buffer, an index buffer of 16-bit indices local to the segment, and an
//! ordered sequence of draw commands. Coordinates are logical units; the
//! framebuffer scale gives device pixels per logical unit. All coordinates
//! are whole numbers of units, as produced by a platform layer that rounds
//! the display scale.

use vstd::prelude::*;
use crate::arith::lemma_mul_range;
use crate::geometry::Vertex;

verus! {

/// A clip rectangle in the same coordinate space as the display rectangle:
/// `(x0, y0)` is the upper-left corner, `(x1, y1)` the lower-right corner.
#[derive(Clone, Copy, Debug, PartialEq, Eq, Structural)]
pub struct ClipRect {
    pub x0: i32,
    pub y0: i32,
    pub x1: i32,
    pub y1: i32,
}

/// One draw command within a segment.
#[derive(Clone, Copy, Debug, PartialEq, Eq, Structural)]
pub enum DrawCommand {
    /// An indexed sub-draw: `count` indices starting at `idx_offset` in the
    /// segment's index buffer, each resolved as `vtx_offset + index` into the
    /// segment's vertex buffer, clipped to `clip` and textured with the
    /// texture object `texture`.
    Elements {
        count: usize,
        clip: ClipRect,
        texture: u32,
        vtx_offset: usize,
        idx_offset: usize,
    },
    /// A reserved command kind (user callbacks and the like): never drawn.
    Reserved,
}

/// A self-contained vertex/index buffer pair with its draw commands.
pub struct Segment {
    pub vertices: Vec<Vertex>,
    pub indices: Vec<u16>,
    pub commands: Vec<DrawCommand>,
}

/// Everything one frame wants drawn: the logical display rectangle, the
/// framebuffer scale, and the ordered segments.
pub struct DrawData {
    pub display_x: i32,
    pub display_y: i32,
    pub display_w: i32,
    pub display_h: i32,
    pub scale_x: i32,
    pub scale_y: i32,
    pub segments: Vec<Segment>,
}

impl DrawCommand {
    /// Bounds that one command must satisfy within its segment: the indexed
    /// range lies inside the index buffer, and every index it covers resolves
    /// within the vertex buffer once the base-vertex offset is added.
    pub open spec fn wf_in(self, seg: Segment) -> bool {
        self matches DrawCommand::Elements { count, vtx_offset, idx_offset, .. } ==> {
            &&& idx_offset + count <= seg.indices@.len()
            &&& forall|k: int|
                idx_offset <= k < idx_offset + count ==> vtx_offset + #[trigger] seg.indices@[k]
                    < seg.vertices@.len()
        }
    }

    /// The scissor rectangle this command yields must fit the signed 32-bit
    /// range the graphics interface accepts (a machine limit, not a rule of
    /// the renderer).
    pub open spec fn scissor_fits(self, d: DrawData) -> bool {
        self matches DrawCommand::Elements { clip, .. } ==> {
            &&& (clip.x0 - d.display_x) * d.scale_x <= i32::MAX
            &&& (clip.y0 - d.display_y) * d.scale_y <= i32::MAX
            &&& (clip.x1 - clip.x0) * d.scale_x <= i32::MAX
            &&& (clip.y1 - clip.y0) * d.scale_y <= i32::MAX
        }
    }
}

impl Segment {
    /// A segment with no vertices or no indices draws nothing.
    pub open spec fn is_empty(self) -> bool {
        self.vertices@.len() == 0 || self.indices@.len() == 0
    }

    pub open spec fn wf_in(self, d: DrawData) -> bool {
        &&& 2 * self.indices@.len() <= i32::MAX
        &&& forall|j: int|
            0 <= j < self.commands@.len() ==> (#[trigger] self.commands@[j]).wf_in(self)
                && self.commands@[j].scissor_fits(d)
    }
}

impl DrawData {
    /// Framebuffer width in device pixels.
    pub open spec fn fb_width(self) -> int {
        self.display_w * self.scale_x
    }

    /// Framebuffer height in device pixels.
    pub open spec fn fb_height(self) -> int {
        self.display_h * self.scale_y
    }

    /// A degenerate frame (minimized or zero-sized surface) is skipped whole.
    pub open spec fn degenerate(self) -> bool {
        self.fb_width() <= 0 || self.fb_height() <= 0
    }

    /// The caller contract on a draw-list: a non-negative framebuffer scale,
    /// a framebuffer that fits the 32-bit range the graphics interface
    /// accepts, and per-segment index bounds as the UI library guarantees
    /// them upstream.
    pub open spec fn wf(self) -> bool {
        &&& 0 <= self.scale_x
        &&& 0 <= self.scale_y
        &&& self.fb_width() <= i32::MAX
        &&& self.fb_height() <= i32::MAX
        &&& forall|i: int|
            0 <= i < self.segments@.len() ==> (#[trigger] self.segments@[i]).wf_in(self)
    }

    /// Check the caller contract `wf` at run time, for callers outside the
    /// verified world.
    pub fn validate(&self) -> (b: bool)
        ensures
            b == self.wf(),
    {
        if self.scale_x < 0 || self.scale_y < 0 {
            return false;
        }
        proof {
            lemma_mul_range(self.display_w as int, self.scale_x as int, 0x8000_0000, 0x7fff_ffff);
            lemma_mul_range(self.display_h as int, self.scale_y as int, 0x8000_0000, 0x7fff_ffff);
        }
        let fb_w: i64 = (self.display_w as i64) * (self.scale_x as i64);
        let fb_h: i64 = (self.display_h as i64) * (self.scale_y as i64);
        if fb_w > (i32::MAX as i64) || fb_h > (i32::MAX as i64) {
            return false;
        }
        let n_segments = self.segments.len();
        for i in 0..n_segments
            invariant
                n_segments == self.segments@.len(),
                0 <= self.scale_x,
                0 <= self.scale_y,
                self.fb_width() <= i32::MAX,
                self.fb_height() <= i32::MAX,
                forall|ii: int| 0 <= ii < i ==> (#[trigger] self.segments@[ii]).wf_in(*self),
        {
            let seg = &self.segments[i];
            if seg.indices.len() > 0x3fff_ffff {
                proof {
                    assert(!self.segments@[i as int].wf_in(*self));
                }
                return false;
            }
            let n_cmds = seg.commands.len();
            for j in 0..n_cmds
                invariant
                    n_cmds == seg.commands@.len(),
                    i < self.segments@.len(),
                    seg == &self.segments@[i as int],
                    0 <= self.scale_x,
                    0 <= self.scale_y,
                    2 * seg.indices@.len() <= i32::MAX,
                    forall|jj: int|
                        0 <= jj < j ==> (#[trigger] seg.commands@[jj]).wf_in(*seg)
                            && seg.commands@[jj].scissor_fits(*self),
            {
                match seg.commands[j] {
                    DrawCommand::Elements { count, clip, texture, vtx_offset, idx_offset } => {
                        if idx_offset > seg.indices.len() || count > seg.indices.len()
                            - idx_offset {
                            proof {
                                assert(!self.segments@[i as int].commands@[j as int].wf_in(
                                    self.segments@[i as int],
                                ));
                                assert(!self.segments@[i as int].wf_in(*self));
                            }
                            return false;
                        }
                        let vlen = self.segments[i].vertices.len();
                        let end = idx_offset + count;
                        for k in idx_offset..end
                            invariant
                                i < self.segments@.len(),
                                seg == &self.segments@[i as int],
                                j < seg.commands@.len(),
                                seg.commands@[j as int] == (DrawCommand::Elements {
                                    count,
                                    clip,
                                    texture,
                                    vtx_offset,
                                    idx_offset,
                                }),
                                end == idx_offset + count,
                                end <= seg.indices@.len(),
                                vlen == seg.vertices@.len(),
                                forall|kk: int|
                                    idx_offset <= kk < k ==> vtx_offset + #[trigger] seg.indices@[kk]
                                        < seg.vertices@.len(),
                        {
                            let idx = seg.indices[k] as usize;
                            if vtx_offset >= vlen || idx >= vlen - vtx_offset {
                                proof {
                                    assert(vtx_offset + seg.indices@[k as int]
                                        >= seg.vertices@.len());
                                    assert(!self.segments@[i as int].commands@[j as int].wf_in(
                                        self.segments@[i as int],
                                    ));
                                    assert(!self.segments@[i as int].wf_in(*self));
                                }
                                return false;
                            }
                        }
                        proof {
                            lemma_mul_range(
                                clip.x0 - self.display_x,
                                self.scale_x as int,
                                0xffff_ffff,
                                0x7fff_ffff,
                            );
                            lemma_mul_range(
                                clip.y0 - self.display_y,
                                self.scale_y as int,
                                0xffff_ffff,
                                0x7fff_ffff,
                            );
                            lemma_mul_range(
                                clip.x1 - clip.x0,
                                self.scale_x as int,
                                0xffff_ffff,
                                0x7fff_ffff,
                            );
                            lemma_mul_range(
                                clip.y1 - clip.y0,
                                self.scale_y as int,
                                0xffff_ffff,
                                0x7fff_ffff,
                            );
                        }
                        let px: i64 = ((clip.x0 as i64) - (self.display_x as i64)) * (self.scale_x
                            as i64);
                        let py: i64 = ((clip.y0 as i64) - (self.display_y as i64)) * (self.scale_y
                            as i64);
                        let pw: i64 = ((clip.x1 as i64) - (clip.x0 as i64)) * (self.scale_x
                            as i64);
                        let ph: i64 = ((clip.y1 as i64) - (clip.y0 as i64)) * (self.scale_y
                            as i64);
                        if px > (i32::MAX as i64) || py > (i32::MAX as i64) || pw > (i32::MAX
                            as i64) || ph > (i32::MAX as i64) {
                            proof {
                                assert(!self.segments@[i as int].commands@[j as int].scissor_fits(
                                    *self,
                                ));
                                assert(!self.segments@[i as int].wf_in(*self));
                            }
                            return false;
                        }
                        proof {
                            assert(seg.commands@[j as int].wf_in(*seg));
                            assert(seg.commands@[j as int].scissor_fits(*self));
                        }
                    },
                    DrawCommand::Reserved => {},
                }
            }
            proof {
                assert(self.segments@[i as int].wf_in(*self));
            }
        }
        true
    }
}

} // verus!
