//! Conversion of a command's clip rectangle into a scissor rectangle.
//!
//! Clip rectangles arrive in the display's coordinate space. The scissor
//! rectangle handed to the GPU is in framebuffer pixels: the display origin
//! is subtracted and the framebuffer scale applied, and every component is
//! clamped to be non-negative.

use vstd::prelude::*;
use crate::arith::lemma_mul_range;
use crate::draw_list::{ClipRect, DrawData};

verus! {

/// A scissor rectangle in framebuffer pixels.
#[derive(Clone, Copy, Debug, PartialEq, Eq, Structural)]
pub struct ScissorRect {
    pub x: i32,
    pub y: i32,
    pub width: i32,
    pub height: i32,
}

pub open spec fn clamp0(v: int) -> int {
    if v < 0 {
        0
    } else {
        v
    }
}

pub open spec fn spec_scissor_x(d: DrawData, c: ClipRect) -> int {
    clamp0((c.x0 - d.display_x) * d.scale_x)
}

pub open spec fn spec_scissor_y(d: DrawData, c: ClipRect) -> int {
    clamp0((c.y0 - d.display_y) * d.scale_y)
}

pub open spec fn spec_scissor_width(d: DrawData, c: ClipRect) -> int {
    clamp0((c.x1 - c.x0) * d.scale_x)
}

pub open spec fn spec_scissor_height(d: DrawData, c: ClipRect) -> int {
    clamp0((c.y1 - c.y0) * d.scale_y)
}

/// The scissor rectangle of one clip rectangle:
/// `((x0 - display_x) * scale_x, (y0 - display_y) * scale_y,
///   (x1 - x0) * scale_x, (y1 - y0) * scale_y)`, clamped to non-negative.
pub open spec fn spec_scissor(d: DrawData, c: ClipRect) -> ScissorRect {
    ScissorRect {
        x: spec_scissor_x(d, c) as i32,
        y: spec_scissor_y(d, c) as i32,
        width: spec_scissor_width(d, c) as i32,
        height: spec_scissor_height(d, c) as i32,
    }
}

/// Scale a coordinate difference and clamp it to the non-negative 32-bit
/// range.
fn scaled_clamped(from: i32, to: i32, scale: i32) -> (r: i32)
    requires
        0 <= scale,
        (to - from) * scale <= i32::MAX,
    ensures
        r as int == clamp0((to - from) * scale),
{
    proof {
        lemma_mul_range(to - from, scale as int, 0xffff_ffff, 0x7fff_ffff);
    }
    let v: i64 = ((to as i64) - (from as i64)) * (scale as i64);
    if v < 0 {
        0
    } else {
        v as i32
    }
}

/// Convert one clip rectangle to the scissor rectangle the GPU receives.
pub fn compute_scissor(d: &DrawData, c: &ClipRect) -> (s: ScissorRect)
    requires
        0 <= d.scale_x,
        0 <= d.scale_y,
        (c.x0 - d.display_x) * d.scale_x <= i32::MAX,
        (c.y0 - d.display_y) * d.scale_y <= i32::MAX,
        (c.x1 - c.x0) * d.scale_x <= i32::MAX,
        (c.y1 - c.y0) * d.scale_y <= i32::MAX,
    ensures
        s == spec_scissor(*d, *c),
        s.x as int == spec_scissor_x(*d, *c),
        s.y as int == spec_scissor_y(*d, *c),
        s.width as int == spec_scissor_width(*d, *c),
        s.height as int == spec_scissor_height(*d, *c),
{
    ScissorRect {
        x: scaled_clamped(d.display_x, c.x0, d.scale_x),
        y: scaled_clamped(d.display_y, c.y0, d.scale_y),
        width: scaled_clamped(c.x0, c.x1, d.scale_x),
        height: scaled_clamped(c.y0, c.y1, d.scale_y),
    }
}

} // verus!
