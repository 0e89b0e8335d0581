use drawlist_renderer::draw_list::{ClipRect, DrawCommand, DrawData, Segment};
use drawlist_renderer::gpu::GpuOp;
use drawlist_renderer::renderer::Renderer;
use drawlist_renderer::geometry::Vertex;

fn vertex(n: u32) -> Vertex {
    Vertex { pos_x: n, pos_y: n, uv_u: 0, uv_v: 0, col_r: 255, col_g: 255, col_b: 255, col_a: 255 }
}

fn renderer() -> Renderer {
    Renderer::new(11, 22, 33, 44, 55)
}

fn quad_segment(commands: Vec<DrawCommand>) -> Segment {
    Segment {
        vertices: vec![vertex(0), vertex(1), vertex(2), vertex(3)],
        indices: vec![0, 1, 2, 0, 2, 3],
        commands,
    }
}

fn single_command_frame() -> DrawData {
    DrawData {
        display_x: 0,
        display_y: 0,
        display_w: 300,
        display_h: 110,
        scale_x: 1,
        scale_y: 1,
        segments: vec![quad_segment(vec![DrawCommand::Elements {
            count: 6,
            clip: ClipRect { x0: 0, y0: 0, x1: 300, y1: 110 },
            texture: 22,
            vtx_offset: 0,
            idx_offset: 0,
        }])],
    }
}

#[test]
fn degenerate_width_is_noop() {
    let d = DrawData {
        display_x: 0,
        display_y: 0,
        display_w: 0,
        display_h: 110,
        scale_x: 1,
        scale_y: 1,
        segments: vec![quad_segment(vec![])],
    };
    assert!(d.validate());
    let ops = renderer().render(&d);
    assert_eq!(ops.len(), 0);
}

#[test]
fn degenerate_negative_height_is_noop() {
    let d = DrawData {
        display_x: 0,
        display_y: 0,
        display_w: 300,
        display_h: -110,
        scale_x: 1,
        scale_y: 1,
        segments: vec![],
    };
    assert!(d.validate());
    let ops = renderer().render(&d);
    assert_eq!(ops.len(), 0);
}

#[test]
fn zero_scale_is_noop() {
    let d = DrawData {
        display_x: 0,
        display_y: 0,
        display_w: 300,
        display_h: 110,
        scale_x: 0,
        scale_y: 0,
        segments: vec![],
    };
    assert!(d.validate());
    let ops = renderer().render(&d);
    assert_eq!(ops.len(), 0);
}

#[test]
fn single_command_frame_trace() {
    let d = single_command_frame();
    assert!(d.validate());
    let r = renderer();
    let ops = r.render(&d);
    let expected = vec![
        GpuOp::SetViewport { x: 0, y: 0, width: 300, height: 110 },
        GpuOp::EnableAlphaBlend,
        GpuOp::UseProgram { program: 11 },
        ops[3],
        GpuOp::SetTextureSamplerUnit { program: 11, unit: 0 },
        GpuOp::BindVertexArray { vao: 33 },
        GpuOp::BindArrayBuffer { vbo: 44 },
        GpuOp::UploadVertexData { segment: 0 },
        GpuOp::BindElementBuffer { ebo: 55 },
        GpuOp::UploadIndexData { segment: 0 },
        GpuOp::ConfigureVertexLayout { program: 11 },
        GpuOp::SetScissor { x: 0, y: 0, width: 300, height: 110 },
        GpuOp::BindTexture { texture: 22 },
        GpuOp::DrawIndexedTriangles { count: 6, byte_offset: 0 },
        GpuOp::UnbindVertexArray,
        GpuOp::UnbindArrayBuffer,
        GpuOp::UnbindElementBuffer,
        GpuOp::UnbindTexture,
    ];
    assert_eq!(ops, expected);
    assert!(matches!(ops[3], GpuOp::SetProjection { .. }));
    let draws: Vec<&GpuOp> =
        ops.iter().filter(|o| matches!(o, GpuOp::DrawIndexedTriangles { .. })).collect();
    assert_eq!(draws.len(), 1);
}

#[test]
fn second_command_byte_offset_nonzero() {
    let clip = ClipRect { x0: 0, y0: 0, x1: 300, y1: 110 };
    let d = DrawData {
        display_x: 0,
        display_y: 0,
        display_w: 300,
        display_h: 110,
        scale_x: 1,
        scale_y: 1,
        segments: vec![quad_segment(vec![
            DrawCommand::Elements { count: 3, clip, texture: 22, vtx_offset: 0, idx_offset: 0 },
            DrawCommand::Elements { count: 3, clip, texture: 22, vtx_offset: 0, idx_offset: 3 },
        ])],
    };
    assert!(d.validate());
    let ops = renderer().render(&d);
    let draws: Vec<(i32, i32)> = ops
        .iter()
        .filter_map(|o| match o {
            GpuOp::DrawIndexedTriangles { count, byte_offset } => Some((*count, *byte_offset)),
            _ => None,
        })
        .collect();
    assert_eq!(draws, vec![(3, 0), (3, 6)]);
}

#[test]
fn render_twice_is_identical() {
    let d = single_command_frame();
    let r = renderer();
    let first = r.render(&d);
    let second = r.render(&d);
    assert_eq!(first, second);
}

#[test]
fn draw_calls_match_elements_commands() {
    let clip = ClipRect { x0: 0, y0: 0, x1: 300, y1: 110 };
    let d = DrawData {
        display_x: 0,
        display_y: 0,
        display_w: 300,
        display_h: 110,
        scale_x: 1,
        scale_y: 1,
        segments: vec![
            quad_segment(vec![
                DrawCommand::Elements {
                    count: 3,
                    clip,
                    texture: 22,
                    vtx_offset: 0,
                    idx_offset: 0,
                },
                DrawCommand::Reserved,
                DrawCommand::Elements {
                    count: 6,
                    clip,
                    texture: 22,
                    vtx_offset: 0,
                    idx_offset: 0,
                },
            ]),
            quad_segment(vec![DrawCommand::Reserved]),
            quad_segment(vec![DrawCommand::Elements {
                count: 3,
                clip,
                texture: 7,
                vtx_offset: 1,
                idx_offset: 0,
            }]),
        ],
    };
    assert!(d.validate());
    let ops = renderer().render(&d);
    let n_draws = ops.iter().filter(|o| matches!(o, GpuOp::DrawIndexedTriangles { .. })).count();
    assert_eq!(n_draws, 3);
}

#[test]
fn empty_segment_is_skipped() {
    let d = DrawData {
        display_x: 0,
        display_y: 0,
        display_w: 300,
        display_h: 110,
        scale_x: 1,
        scale_y: 1,
        segments: vec![Segment { vertices: vec![], indices: vec![], commands: vec![] }],
    };
    assert!(d.validate());
    let ops = renderer().render(&d);
    // Only the frame prelude and epilogue remain.
    assert_eq!(ops.len(), 9);
    assert!(!ops.iter().any(|o| matches!(o, GpuOp::UploadVertexData { .. })));
}

#[test]
fn zero_count_command_draws_nothing() {
    let clip = ClipRect { x0: 0, y0: 0, x1: 300, y1: 110 };
    let d = DrawData {
        display_x: 0,
        display_y: 0,
        display_w: 300,
        display_h: 110,
        scale_x: 1,
        scale_y: 1,
        segments: vec![quad_segment(vec![DrawCommand::Elements {
            count: 0,
            clip,
            texture: 22,
            vtx_offset: 0,
            idx_offset: 0,
        }])],
    };
    assert!(d.validate());
    let ops = renderer().render(&d);
    assert!(!ops.iter().any(|o| matches!(o, GpuOp::DrawIndexedTriangles { .. })));
    assert!(!ops.iter().any(|o| matches!(o, GpuOp::SetScissor { .. })));
}

#[test]
fn scaled_frame_viewport_and_scissor() {
    let d = DrawData {
        display_x: 5,
        display_y: 5,
        display_w: 100,
        display_h: 100,
        scale_x: 2,
        scale_y: 3,
        segments: vec![quad_segment(vec![DrawCommand::Elements {
            count: 6,
            clip: ClipRect { x0: 10, y0: 20, x1: 110, y1: 220 },
            texture: 22,
            vtx_offset: 0,
            idx_offset: 0,
        }])],
    };
    assert!(d.validate());
    let ops = renderer().render(&d);
    assert_eq!(ops[0], GpuOp::SetViewport { x: 0, y: 0, width: 200, height: 300 });
    let scissors: Vec<(i32, i32, i32, i32)> = ops
        .iter()
        .filter_map(|o| match o {
            GpuOp::SetScissor { x, y, width, height } => Some((*x, *y, *width, *height)),
            _ => None,
        })
        .collect();
    assert_eq!(scissors, vec![(10, 45, 200, 600)]);
}

#[test]
fn scissor_clamps_to_non_negative() {
    let d = DrawData {
        display_x: 50,
        display_y: 50,
        display_w: 100,
        display_h: 100,
        scale_x: 1,
        scale_y: 1,
        segments: vec![quad_segment(vec![DrawCommand::Elements {
            count: 6,
            // Clip upper-left of the display origin, and inverted on y.
            clip: ClipRect { x0: 10, y0: 60, x1: 90, y1: 55 },
            texture: 22,
            vtx_offset: 0,
            idx_offset: 0,
        }])],
    };
    assert!(d.validate());
    let ops = renderer().render(&d);
    let scissors: Vec<(i32, i32, i32, i32)> = ops
        .iter()
        .filter_map(|o| match o {
            GpuOp::SetScissor { x, y, width, height } => Some((*x, *y, *width, *height)),
            _ => None,
        })
        .collect();
    assert_eq!(scissors, vec![(0, 10, 80, 0)]);
}
