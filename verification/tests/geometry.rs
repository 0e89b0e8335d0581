use drawlist_renderer::geometry::{
    encode_indices, encode_vertices, Vertex, INDEX_SIZE, VERTEX_COL_OFFSET, VERTEX_POS_OFFSET,
    VERTEX_STRIDE, VERTEX_UV_OFFSET,
};

#[test]
fn layout_constants() {
    assert_eq!(VERTEX_POS_OFFSET, 0);
    assert_eq!(VERTEX_UV_OFFSET, 8);
    assert_eq!(VERTEX_COL_OFFSET, 16);
    assert_eq!(VERTEX_STRIDE, 20);
    assert_eq!(INDEX_SIZE, 2);
}

#[test]
fn encode_one_vertex() {
    let one = 1.0f32.to_bits();
    let half = 0.5f32.to_bits();
    let v = Vertex {
        pos_x: one,
        pos_y: half,
        uv_u: 0,
        uv_v: one,
        col_r: 1,
        col_g: 2,
        col_b: 3,
        col_a: 4,
    };
    let bytes = encode_vertices(&vec![v]);
    assert_eq!(bytes.len(), 20);
    // 1.0f32 is 0x3f800000, 0.5f32 is 0x3f000000, little-endian.
    assert_eq!(&bytes[0..4], &[0x00, 0x00, 0x80, 0x3f]);
    assert_eq!(&bytes[4..8], &[0x00, 0x00, 0x00, 0x3f]);
    assert_eq!(&bytes[8..12], &[0x00, 0x00, 0x00, 0x00]);
    assert_eq!(&bytes[12..16], &[0x00, 0x00, 0x80, 0x3f]);
    assert_eq!(&bytes[16..20], &[1, 2, 3, 4]);
}

#[test]
fn encode_vertices_concatenates_records() {
    let v0 = Vertex {
        pos_x: 0x01020304,
        pos_y: 0,
        uv_u: 0,
        uv_v: 0,
        col_r: 9,
        col_g: 9,
        col_b: 9,
        col_a: 9,
    };
    let v1 = Vertex {
        pos_x: 0,
        pos_y: 0x0a0b0c0d,
        uv_u: 0,
        uv_v: 0,
        col_r: 7,
        col_g: 7,
        col_b: 7,
        col_a: 7,
    };
    let bytes = encode_vertices(&vec![v0, v1]);
    assert_eq!(bytes.len(), 40);
    assert_eq!(&bytes[0..4], &[0x04, 0x03, 0x02, 0x01]);
    assert_eq!(&bytes[24..28], &[0x0d, 0x0c, 0x0b, 0x0a]);
    assert_eq!(bytes[16], 9);
    assert_eq!(bytes[36], 7);
}

#[test]
fn encode_empty_buffers() {
    assert_eq!(encode_vertices(&vec![]).len(), 0);
    assert_eq!(encode_indices(&vec![]).len(), 0);
}

#[test]
fn encode_indices_little_endian() {
    let bytes = encode_indices(&vec![0x0102, 0x0304, 0xffff]);
    assert_eq!(bytes, vec![0x02, 0x01, 0x04, 0x03, 0xff, 0xff]);
}
