//! The packed vertex record and its byte layout.
//!
//! The GPU pipeline reads vertices from one flat byte buffer whose layout is
//! fixed when the pipeline is built: a 2-D position, a 2-D texture
//! coordinate, and a packed RGBA colour, 20 bytes per vertex. The position
//! and texture coordinate are 32-bit IEEE-754 values; the renderer never
//! interprets them, so they are carried as raw little-endian bit patterns.
//! A mismatch between this layout and what the UI library emits corrupts
//! rendering silently, which is why the encoding is pinned down exactly.

use vstd::prelude::*;

verus! {

/// Bytes from the start of a vertex record to its position field.
pub const VERTEX_POS_OFFSET: usize = 0;

/// Bytes from the start of a vertex record to its texture-coordinate field.
pub const VERTEX_UV_OFFSET: usize = 8;

/// Bytes from the start of a vertex record to its colour field.
pub const VERTEX_COL_OFFSET: usize = 16;

/// Size in bytes of one packed vertex record.
pub const VERTEX_STRIDE: usize = 20;

/// Size in bytes of one index-buffer entry.
pub const INDEX_SIZE: usize = 2;

/// One vertex as the UI library emits it. `pos_x` .. `uv_v` hold the bit
/// patterns of 32-bit IEEE-754 values; `col_*` are the colour channels,
/// normalized on upload.
#[derive(Clone, Copy, Debug, PartialEq, Eq, Structural)]
pub struct Vertex {
    pub pos_x: u32,
    pub pos_y: u32,
    pub uv_u: u32,
    pub uv_v: u32,
    pub col_r: u8,
    pub col_g: u8,
    pub col_b: u8,
    pub col_a: u8,
}

/// The four little-endian bytes of a 32-bit value.
pub open spec fn u32_le_bytes(x: u32) -> Seq<u8> {
    seq![
        (x & 0xff) as u8,
        ((x >> 8) & 0xff) as u8,
        ((x >> 16) & 0xff) as u8,
        ((x >> 24) & 0xff) as u8,
    ]
}

/// The two little-endian bytes of a 16-bit value.
pub open spec fn u16_le_bytes(x: u16) -> Seq<u8> {
    seq![(x & 0xff) as u8, ((x >> 8) & 0xff) as u8]
}

/// The 20 bytes of one packed vertex record: position, then texture
/// coordinate, then colour.
pub open spec fn vertex_le_bytes(v: Vertex) -> Seq<u8> {
    u32_le_bytes(v.pos_x) + u32_le_bytes(v.pos_y) + u32_le_bytes(v.uv_u) + u32_le_bytes(v.uv_v)
        + seq![v.col_r, v.col_g, v.col_b, v.col_a]
}

/// The byte image of a whole vertex buffer, records in order.
pub open spec fn vertices_le_bytes(vs: Seq<Vertex>) -> Seq<u8>
    decreases vs.len(),
{
    if vs.len() == 0 {
        Seq::empty()
    } else {
        vertices_le_bytes(vs.drop_last()) + vertex_le_bytes(vs.last())
    }
}

/// The byte image of a whole index buffer, entries in order.
pub open spec fn indices_le_bytes(is: Seq<u16>) -> Seq<u8>
    decreases is.len(),
{
    if is.len() == 0 {
        Seq::empty()
    } else {
        indices_le_bytes(is.drop_last()) + u16_le_bytes(is.last())
    }
}

pub proof fn lemma_vertices_le_bytes_push(vs: Seq<Vertex>, v: Vertex)
    ensures
        vertices_le_bytes(vs.push(v)) == vertices_le_bytes(vs) + vertex_le_bytes(v),
{
    assert(vs.push(v).drop_last() =~= vs);
    assert(vs.push(v).last() == v);
}

pub proof fn lemma_indices_le_bytes_push(is: Seq<u16>, x: u16)
    ensures
        indices_le_bytes(is.push(x)) == indices_le_bytes(is) + u16_le_bytes(x),
{
    assert(is.push(x).drop_last() =~= is);
    assert(is.push(x).last() == x);
}

/// A vertex buffer's byte image is one stride per vertex.
pub proof fn lemma_vertices_le_bytes_len(vs: Seq<Vertex>)
    ensures
        vertices_le_bytes(vs).len() == VERTEX_STRIDE * vs.len(),
    decreases vs.len(),
{
    if vs.len() > 0 {
        lemma_vertices_le_bytes_len(vs.drop_last());
    }
}

/// An index buffer's byte image is one entry size per index.
pub proof fn lemma_indices_le_bytes_len(is: Seq<u16>)
    ensures
        indices_le_bytes(is).len() == INDEX_SIZE * is.len(),
    decreases is.len(),
{
    if is.len() > 0 {
        lemma_indices_le_bytes_len(is.drop_last());
    }
}

/// Each field of a vertex record sits at its declared offset within the
/// record's bytes: the attribute-pointer offsets follow from the record
/// layout instead of being assumed.
pub proof fn lemma_vertex_layout(v: Vertex)
    ensures
        vertex_le_bytes(v).len() == VERTEX_STRIDE,
        vertex_le_bytes(v).subrange(VERTEX_POS_OFFSET as int, VERTEX_POS_OFFSET + 8) == u32_le_bytes(
            v.pos_x,
        ) + u32_le_bytes(v.pos_y),
        vertex_le_bytes(v).subrange(VERTEX_UV_OFFSET as int, VERTEX_UV_OFFSET + 8) == u32_le_bytes(
            v.uv_u,
        ) + u32_le_bytes(v.uv_v),
        vertex_le_bytes(v).subrange(VERTEX_COL_OFFSET as int, VERTEX_STRIDE as int) == seq![
            v.col_r,
            v.col_g,
            v.col_b,
            v.col_a,
        ],
{
    assert(vertex_le_bytes(v).subrange(VERTEX_POS_OFFSET as int, VERTEX_POS_OFFSET + 8)
        =~= u32_le_bytes(v.pos_x) + u32_le_bytes(v.pos_y));
    assert(vertex_le_bytes(v).subrange(VERTEX_UV_OFFSET as int, VERTEX_UV_OFFSET + 8)
        =~= u32_le_bytes(v.uv_u) + u32_le_bytes(v.uv_v));
    assert(vertex_le_bytes(v).subrange(VERTEX_COL_OFFSET as int, VERTEX_STRIDE as int) =~= seq![
        v.col_r,
        v.col_g,
        v.col_b,
        v.col_a,
    ]);
}

fn push_u32_le(out: &mut Vec<u8>, x: u32)
    ensures
        final(out)@ == old(out)@ + u32_le_bytes(x),
{
    out.push((x & 0xff) as u8);
    out.push(((x >> 8) & 0xff) as u8);
    out.push(((x >> 16) & 0xff) as u8);
    out.push(((x >> 24) & 0xff) as u8);
    assert(out@ =~= old(out)@ + u32_le_bytes(x));
}

/// Serialize a vertex buffer into the flat byte image the GPU-side buffer
/// receives.
pub fn encode_vertices(vs: &Vec<Vertex>) -> (out: Vec<u8>)
    ensures
        out@ == vertices_le_bytes(vs@),
        out@.len() == VERTEX_STRIDE * vs@.len(),
{
    let mut out: Vec<u8> = Vec::new();
    assert(vs@.subrange(0, 0) =~= Seq::<Vertex>::empty());
    for i in 0..vs.len()
        invariant
            out@ == vertices_le_bytes(vs@.subrange(0, i as int)),
    {
        let v = vs[i];
        push_u32_le(&mut out, v.pos_x);
        push_u32_le(&mut out, v.pos_y);
        push_u32_le(&mut out, v.uv_u);
        push_u32_le(&mut out, v.uv_v);
        out.push(v.col_r);
        out.push(v.col_g);
        out.push(v.col_b);
        out.push(v.col_a);
        proof {
            lemma_vertices_le_bytes_push(vs@.subrange(0, i as int), vs@[i as int]);
            assert(vs@.subrange(0, i + 1) =~= vs@.subrange(0, i as int).push(vs@[i as int]));
            assert(out@ =~= vertices_le_bytes(vs@.subrange(0, i as int)) + vertex_le_bytes(
                vs@[i as int],
            ));
        }
    }
    proof {
        assert(vs@.subrange(0, vs@.len() as int) =~= vs@);
        lemma_vertices_le_bytes_len(vs@);
    }
    out
}

/// Serialize an index buffer into the flat byte image the GPU-side buffer
/// receives.
pub fn encode_indices(is: &Vec<u16>) -> (out: Vec<u8>)
    ensures
        out@ == indices_le_bytes(is@),
        out@.len() == INDEX_SIZE * is@.len(),
{
    let mut out: Vec<u8> = Vec::new();
    assert(is@.subrange(0, 0) =~= Seq::<u16>::empty());
    for i in 0..is.len()
        invariant
            out@ == indices_le_bytes(is@.subrange(0, i as int)),
    {
        let x = is[i];
        out.push((x & 0xff) as u8);
        out.push(((x >> 8) & 0xff) as u8);
        proof {
            lemma_indices_le_bytes_push(is@.subrange(0, i as int), is@[i as int]);
            assert(is@.subrange(0, i + 1) =~= is@.subrange(0, i as int).push(is@[i as int]));
            assert(out@ =~= indices_le_bytes(is@.subrange(0, i as int)) + u16_le_bytes(
                is@[i as int],
            ));
        }
    }
    proof {
        assert(is@.subrange(0, is@.len() as int) =~= is@);
        lemma_indices_le_bytes_len(is@);
    }
    out
}

} // verus!
