//! The vocabulary of GPU operations the renderer issues.
//!
//! The renderer never touches a graphics context itself: it computes an
//! ordered list of these operations, and an unverified shell performs each
//! one as a single call into the graphics interface. Object handles
//! (programs, shaders, buffers, vertex arrays, textures) are the raw 32-bit
//! names the graphics interface hands out.

use vstd::prelude::*;
use crate::projection::ProjectionMatrix;

verus! {

/// The two shader stages of the pipeline.
#[derive(Clone, Copy, Debug, PartialEq, Eq, Structural)]
pub enum ShaderStage {
    Vertex,
    Fragment,
}

/// One GPU operation. Units: coordinates and sizes in device pixels;
/// `segment` fields index into the draw-list whose rendering produced the
/// operation; byte offsets count from the start of the bound buffer.
#[derive(Clone, Copy, Debug, PartialEq, Eq, Structural)]
pub enum GpuOp {
    /// Set the viewport to the given rectangle of the framebuffer.
    SetViewport { x: i32, y: i32, width: i32, height: i32 },
    /// Enable blending with source alpha over one-minus-source-alpha.
    EnableAlphaBlend,
    /// Bind the shader program.
    UseProgram { program: u32 },
    /// Upload the projection matrix to the program's matrix uniform.
    SetProjection { program: u32, matrix: ProjectionMatrix },
    /// Point the program's texture sampler at the given texture unit.
    SetTextureSamplerUnit { program: u32, unit: i32 },
    /// Bind the vertex-array (attribute layout) object.
    BindVertexArray { vao: u32 },
    /// Bind the vertex buffer.
    BindArrayBuffer { vbo: u32 },
    /// Bind the index buffer.
    BindElementBuffer { ebo: u32 },
    /// Replace the bound vertex buffer's contents with the byte image of the
    /// given segment's vertices (streaming usage).
    UploadVertexData { segment: usize },
    /// Replace the bound index buffer's contents with the byte image of the
    /// given segment's indices (streaming usage).
    UploadIndexData { segment: usize },
    /// Establish the attribute pointers of the fixed vertex layout against
    /// the bound buffers, for the given program's attributes.
    ConfigureVertexLayout { program: u32 },
    /// Bind the texture to the 2-D target of the active unit.
    BindTexture { texture: u32 },
    /// Restrict rendering to the given rectangle of the framebuffer.
    SetScissor { x: i32, y: i32, width: i32, height: i32 },
    /// Draw `count` indices as triangles, reading 16-bit indices starting at
    /// `byte_offset` into the bound index buffer.
    DrawIndexedTriangles { count: i32, byte_offset: i32 },
    /// Leave no vertex array bound.
    UnbindVertexArray,
    /// Leave no vertex buffer bound.
    UnbindArrayBuffer,
    /// Leave no index buffer bound.
    UnbindElementBuffer,
    /// Leave no texture bound to the 2-D target.
    UnbindTexture,
    /// Hand the given stage's source text to the shader object.
    SourceShader { shader: u32, stage: ShaderStage },
    /// Compile the shader object.
    CompileShader { shader: u32 },
    /// Read the shader's compile status; on failure the build is broken and
    /// the process must terminate with the driver's log.
    VerifyCompileStatus { shader: u32 },
    /// Attach the shader object to the program.
    AttachShader { program: u32, shader: u32 },
    /// Link the program.
    LinkProgram { program: u32 },
    /// Read the program's link status; on failure the build is broken and
    /// the process must terminate with the driver's log.
    VerifyLinkStatus { program: u32 },
    /// Detach a shader object from the program after linking.
    DetachShader { program: u32, shader: u32 },
    /// Delete a shader object after linking.
    DeleteShader { shader: u32 },
    /// Set minification filtering of the bound texture to linear.
    SetMinFilterLinear,
    /// Set magnification filtering of the bound texture to linear.
    SetMagFilterLinear,
    /// Upload the font atlas pixels (packed RGBA, 8 bits per channel, no row
    /// padding) as the bound texture's image.
    UploadRgbaTexture { width: i32, height: i32 },
    /// Set the row length assumed when unpacking pixel data.
    SetUnpackRowLength { value: i32 },
    /// Release the shader program.
    DeleteProgram { program: u32 },
    /// Release a buffer object.
    DeleteBuffer { buffer: u32 },
    /// Release a vertex-array object.
    DeleteVertexArray { vao: u32 },
    /// Release a texture object.
    DeleteTexture { texture: u32 },
}

} // verus!
