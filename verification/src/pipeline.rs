//! The shader pipeline: stage sources and the build sequence.
//!
//! The vertex stage multiplies the position by the projection matrix and
//! passes the texture coordinate and colour through; the fragment stage
//! samples the bound texture and multiplies by the interpolated colour. The
//! program exposes attributes `pos`, `uv` and `col`, and uniforms `matrix`
//! (the projection) and `tex` (the sampler).

use vstd::prelude::*;
use crate::gpu::{GpuOp, ShaderStage};

verus! {

/// The vertex stage's source text.
pub open spec fn spec_vertex_shader_source() -> Seq<char> {
    "#version 410\nuniform mat4 matrix;\nin vec2 pos;\nin vec2 uv;\nin vec4 col;\nout vec2 f_uv;\nout vec4 f_color;\nvoid main() {\n  f_uv = uv;\n  f_color = col;\n  gl_Position = matrix * vec4(pos.xy, 0, 1);\n}\n"@
}

/// The fragment stage's source text.
pub open spec fn spec_fragment_shader_source() -> Seq<char> {
    "#version 410\nuniform sampler2D tex;\nin vec2 f_uv;\nin vec4 f_color;\nout vec4 out_color;\nvoid main() {\n  out_color = f_color * texture(tex, f_uv.st);\n}\n"@
}

/// The source text of one shader stage.
pub fn shader_source(stage: ShaderStage) -> (s: &'static str)
    ensures
        stage is Vertex ==> s@ == spec_vertex_shader_source(),
        stage is Fragment ==> s@ == spec_fragment_shader_source(),
{
    match stage {
        ShaderStage::Vertex => {
            "#version 410\nuniform mat4 matrix;\nin vec2 pos;\nin vec2 uv;\nin vec4 col;\nout vec2 f_uv;\nout vec4 f_color;\nvoid main() {\n  f_uv = uv;\n  f_color = col;\n  gl_Position = matrix * vec4(pos.xy, 0, 1);\n}\n"
        },
        ShaderStage::Fragment => {
            "#version 410\nuniform sampler2D tex;\nin vec2 f_uv;\nin vec4 f_color;\nout vec4 out_color;\nvoid main() {\n  out_color = f_color * texture(tex, f_uv.st);\n}\n"
        },
    }
}

/// The operations that build the pipeline into the three given objects:
/// source, compile and attach each stage, link, then detach and delete the
/// stage objects. A failed compile or link status is fatal to the process,
/// never a recoverable error.
pub open spec fn spec_build_plan(program: u32, vertex_shader: u32, fragment_shader: u32) -> Seq<
    GpuOp,
> {
    seq![
        GpuOp::SourceShader { shader: vertex_shader, stage: ShaderStage::Vertex },
        GpuOp::CompileShader { shader: vertex_shader },
        GpuOp::VerifyCompileStatus { shader: vertex_shader },
        GpuOp::AttachShader { program, shader: vertex_shader },
        GpuOp::SourceShader { shader: fragment_shader, stage: ShaderStage::Fragment },
        GpuOp::CompileShader { shader: fragment_shader },
        GpuOp::VerifyCompileStatus { shader: fragment_shader },
        GpuOp::AttachShader { program, shader: fragment_shader },
        GpuOp::LinkProgram { program },
        GpuOp::VerifyLinkStatus { program },
        GpuOp::DetachShader { program, shader: vertex_shader },
        GpuOp::DeleteShader { shader: vertex_shader },
        GpuOp::DetachShader { program, shader: fragment_shader },
        GpuOp::DeleteShader { shader: fragment_shader },
    ]
}

/// Compute the pipeline build sequence.
pub fn build_plan(program: u32, vertex_shader: u32, fragment_shader: u32) -> (ops: Vec<GpuOp>)
    ensures
        ops@ == spec_build_plan(program, vertex_shader, fragment_shader),
{
    let mut ops: Vec<GpuOp> = Vec::new();
    ops.push(GpuOp::SourceShader { shader: vertex_shader, stage: ShaderStage::Vertex });
    ops.push(GpuOp::CompileShader { shader: vertex_shader });
    ops.push(GpuOp::VerifyCompileStatus { shader: vertex_shader });
    ops.push(GpuOp::AttachShader { program, shader: vertex_shader });
    ops.push(GpuOp::SourceShader { shader: fragment_shader, stage: ShaderStage::Fragment });
    ops.push(GpuOp::CompileShader { shader: fragment_shader });
    ops.push(GpuOp::VerifyCompileStatus { shader: fragment_shader });
    ops.push(GpuOp::AttachShader { program, shader: fragment_shader });
    ops.push(GpuOp::LinkProgram { program });
    ops.push(GpuOp::VerifyLinkStatus { program });
    ops.push(GpuOp::DetachShader { program, shader: vertex_shader });
    ops.push(GpuOp::DeleteShader { shader: vertex_shader });
    ops.push(GpuOp::DetachShader { program, shader: fragment_shader });
    ops.push(GpuOp::DeleteShader { shader: fragment_shader });
    proof {
        assert(ops@ =~= spec_build_plan(program, vertex_shader, fragment_shader));
    }
    ops
}

} // verus!
