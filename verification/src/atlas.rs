//! The font/glyph atlas produced by the UI library's font rasterizer.

use vstd::prelude::*;
use crate::gpu::GpuOp;

verus! {

/// A font atlas image: packed RGBA pixels, 8 bits per channel, rows tightly
/// packed with no padding.
pub struct FontAtlas {
    pub width: i32,
    pub height: i32,
    pub pixels: Vec<u8>,
}

impl FontAtlas {
    /// Four bytes per pixel, exactly `width * height` pixels.
    pub open spec fn wf(self) -> bool {
        &&& 0 <= self.width
        &&& 0 <= self.height
        &&& self.pixels@.len() == 4 * self.width * self.height
    }
}

/// The operations that upload an atlas into the given texture object: bind
/// it, select linear filtering both ways, hand over the pixels, and declare
/// the rows tightly packed.
pub open spec fn atlas_plan(texture: u32, atlas: FontAtlas) -> Seq<GpuOp> {
    seq![
        GpuOp::BindTexture { texture },
        GpuOp::SetMinFilterLinear,
        GpuOp::SetMagFilterLinear,
        GpuOp::UploadRgbaTexture { width: atlas.width, height: atlas.height },
        GpuOp::SetUnpackRowLength { value: 0i32 },
    ]
}

} // verus!
