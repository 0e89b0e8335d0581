use drawlist_renderer::atlas::FontAtlas;
use drawlist_renderer::gpu::{GpuOp, ShaderStage};
use drawlist_renderer::pipeline::{build_plan, shader_source};
use drawlist_renderer::renderer::Renderer;

#[test]
fn new_records_handles() {
    let r = Renderer::new(1, 2, 3, 4, 5);
    assert_eq!(r.program, 1);
    assert_eq!(r.font_texture, 2);
    assert_eq!(r.vao, 3);
    assert_eq!(r.vbo, 4);
    assert_eq!(r.ebo, 5);
}

#[test]
fn cleanup_releases_each_handle_once() {
    let r = Renderer::new(1, 2, 3, 4, 5);
    let ops = r.cleanup();
    assert_eq!(
        ops,
        vec![
            GpuOp::DeleteProgram { program: 1 },
            GpuOp::DeleteTexture { texture: 2 },
            GpuOp::DeleteVertexArray { vao: 3 },
            GpuOp::DeleteBuffer { buffer: 4 },
            GpuOp::DeleteBuffer { buffer: 5 },
        ]
    );
    // Each owned object is released exactly once.
    assert_eq!(ops.iter().filter(|o| matches!(o, GpuOp::DeleteProgram { program: 1 })).count(), 1);
    assert_eq!(ops.iter().filter(|o| matches!(o, GpuOp::DeleteTexture { texture: 2 })).count(), 1);
    assert_eq!(ops.iter().filter(|o| matches!(o, GpuOp::DeleteVertexArray { vao: 3 })).count(), 1);
    assert_eq!(ops.iter().filter(|o| matches!(o, GpuOp::DeleteBuffer { buffer: 4 })).count(), 1);
    assert_eq!(ops.iter().filter(|o| matches!(o, GpuOp::DeleteBuffer { buffer: 5 })).count(), 1);
}

#[test]
fn upload_font_atlas_replaces_texture() {
    let mut r = Renderer::new(1, 2, 3, 4, 5);
    let atlas = FontAtlas { width: 2, height: 3, pixels: vec![0u8; 24] };
    let ops = r.upload_font_atlas(9, &atlas);
    assert_eq!(r.font_texture, 9);
    assert_eq!(r.program, 1);
    assert_eq!(
        ops,
        vec![
            GpuOp::BindTexture { texture: 9 },
            GpuOp::SetMinFilterLinear,
            GpuOp::SetMagFilterLinear,
            GpuOp::UploadRgbaTexture { width: 2, height: 3 },
            GpuOp::SetUnpackRowLength { value: 0 },
        ]
    );
    // Cleanup now releases the new texture, not the stale handle.
    let ops = r.cleanup();
    assert!(ops.contains(&GpuOp::DeleteTexture { texture: 9 }));
    assert!(!ops.contains(&GpuOp::DeleteTexture { texture: 2 }));
}

#[test]
fn build_plan_sequence() {
    let ops = build_plan(1, 10, 20);
    assert_eq!(
        ops,
        vec![
            GpuOp::SourceShader { shader: 10, stage: ShaderStage::Vertex },
            GpuOp::CompileShader { shader: 10 },
            GpuOp::VerifyCompileStatus { shader: 10 },
            GpuOp::AttachShader { program: 1, shader: 10 },
            GpuOp::SourceShader { shader: 20, stage: ShaderStage::Fragment },
            GpuOp::CompileShader { shader: 20 },
            GpuOp::VerifyCompileStatus { shader: 20 },
            GpuOp::AttachShader { program: 1, shader: 20 },
            GpuOp::LinkProgram { program: 1 },
            GpuOp::VerifyLinkStatus { program: 1 },
            GpuOp::DetachShader { program: 1, shader: 10 },
            GpuOp::DeleteShader { shader: 10 },
            GpuOp::DetachShader { program: 1, shader: 20 },
            GpuOp::DeleteShader { shader: 20 },
        ]
    );
}

#[test]
fn shader_sources_have_expected_interface() {
    let vs = shader_source(ShaderStage::Vertex);
    assert!(vs.starts_with("#version 410\n"));
    assert!(vs.contains("uniform mat4 matrix;"));
    assert!(vs.contains("in vec2 pos;"));
    assert!(vs.contains("in vec2 uv;"));
    assert!(vs.contains("in vec4 col;"));
    assert!(vs.contains("gl_Position = matrix * vec4(pos.xy, 0, 1);"));
    let fs = shader_source(ShaderStage::Fragment);
    assert!(fs.starts_with("#version 410\n"));
    assert!(fs.contains("uniform sampler2D tex;"));
    assert!(fs.contains("out_color = f_color * texture(tex, f_uv.st);"));
}
