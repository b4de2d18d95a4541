//! Little-endian integer fields, and the fixed-width records that a CXBin
//! geometry block is made of.
//!
//! Floating-point coordinates are carried as their IEEE-754 bit patterns
//! (`u32`): decoding a coordinate is reading four little-endian bytes, and
//! writing it back is writing the same four bytes.
use vstd::prelude::*;

verus! {

/// The `u32` stored little-endian in `b[off..off + 4]`.
pub open spec fn u32_le(b: Seq<u8>, off: int) -> u32 {
    (b[off] as int + b[off + 1] as int * 256 + b[off + 2] as int * 65536 + b[off + 3] as int
        * 16777216) as u32
}

/// The `i32` stored little-endian (two's complement) in `b[off..off + 4]`.
pub open spec fn i32_le(b: Seq<u8>, off: int) -> i32 {
    u32_le(b, off) as i32
}

/// The four little-endian bytes of `x`.
pub open spec fn u32_le_bytes(x: u32) -> Seq<u8> {
    seq![(x % 256) as u8, ((x / 256) % 256) as u8, ((x / 65536) % 256) as u8, (x / 16777216) as u8]
}

/// The four little-endian (two's complement) bytes of `x`.
pub open spec fn i32_le_bytes(x: i32) -> Seq<u8> {
    u32_le_bytes(x as u32)
}

/// Three `u32` read at `off`, `off + 4`, `off + 8`.
pub open spec fn u32_triple_at(b: Seq<u8>, off: int) -> [u32; 3] {
    [u32_le(b, off), u32_le(b, off + 4), u32_le(b, off + 8)]
}

/// Three `i32` read at `off`, `off + 4`, `off + 8`.
pub open spec fn i32_triple_at(b: Seq<u8>, off: int) -> [i32; 3] {
    [i32_le(b, off), i32_le(b, off + 4), i32_le(b, off + 8)]
}

/// Two `u32` read at `off`, `off + 4`.
pub open spec fn u32_pair_at(b: Seq<u8>, off: int) -> [u32; 2] {
    [u32_le(b, off), u32_le(b, off + 4)]
}

/// `count` vertices of 12 bytes each, starting at `start`.
pub open spec fn vertices_at(b: Seq<u8>, start: int, count: nat) -> Seq<[u32; 3]> {
    Seq::new(count, |i: int| u32_triple_at(b, start + 12 * i))
}

/// `count` index triples of 12 bytes each, starting at `start`.
pub open spec fn triples_at(b: Seq<u8>, start: int, count: nat) -> Seq<[i32; 3]> {
    Seq::new(count, |i: int| i32_triple_at(b, start + 12 * i))
}

/// `count` texture coordinates of 8 bytes each, starting at `start`.
pub open spec fn pairs_at(b: Seq<u8>, start: int, count: nat) -> Seq<[u32; 2]> {
    Seq::new(count, |i: int| u32_pair_at(b, start + 8 * i))
}

/// `count` `i32` of 4 bytes each, starting at `start`.
pub open spec fn ints_at(b: Seq<u8>, start: int, count: nat) -> Seq<i32> {
    Seq::new(count, |i: int| i32_le(b, start + 4 * i))
}

/// Reads the little-endian `u32` at `off`.
pub fn read_u32_le(b: &[u8], off: usize) -> (r: u32)
    requires
        off + 4 <= b@.len(),
    ensures
        r == u32_le(b@, off as int),
{
    b[off] as u32 + b[off + 1] as u32 * 256 + b[off + 2] as u32 * 65536 + b[off + 3] as u32
        * 16777216
}

/// Reads the little-endian `i32` at `off`.
pub fn read_i32_le(b: &[u8], off: usize) -> (r: i32)
    requires
        off + 4 <= b@.len(),
    ensures
        r == i32_le(b@, off as int),
{
    read_u32_le(b, off) as i32
}

fn read_u32_triple(b: &[u8], off: usize) -> (r: [u32; 3])
    requires
        off + 12 <= b@.len(),
    ensures
        r == u32_triple_at(b@, off as int),
{
    let _len = b.len();
    [read_u32_le(b, off), read_u32_le(b, off + 4), read_u32_le(b, off + 8)]
}

fn read_i32_triple(b: &[u8], off: usize) -> (r: [i32; 3])
    requires
        off + 12 <= b@.len(),
    ensures
        r == i32_triple_at(b@, off as int),
{
    let _len = b.len();
    [read_i32_le(b, off), read_i32_le(b, off + 4), read_i32_le(b, off + 8)]
}

/// Decodes `vert_num` vertices (three little-endian `f32` each, kept as bits)
/// from `raw[start..start + 12 * vert_num]`.
pub fn decode_vertices(raw: &[u8], start: usize, vert_num: usize) -> (verts: Vec<[u32; 3]>)
    requires
        start + 12 * vert_num <= raw@.len(),
    ensures
        verts@ == vertices_at(raw@, start as int, vert_num as nat),
{
    let len = raw.len();
    let mut verts: Vec<[u32; 3]> = Vec::new();
    let mut i: usize = 0;
    while i < vert_num
        invariant
            len == raw@.len(),
            i <= vert_num,
            start + 12 * vert_num <= raw@.len(),
            verts@ == vertices_at(raw@, start as int, i as nat),
        decreases vert_num - i,
    {
        let off = start + 12 * i;
        verts.push(read_u32_triple(raw, off));
        i = i + 1;
        assert(verts@ =~= vertices_at(raw@, start as int, i as nat));
    }
    verts
}

/// Decodes `face_num` index triples (three little-endian `i32` each) from
/// `raw[start..start + 12 * face_num]`.
pub fn decode_faces(raw: &[u8], start: usize, face_num: usize) -> (faces: Vec<[i32; 3]>)
    requires
        start + 12 * face_num <= raw@.len(),
    ensures
        faces@ == triples_at(raw@, start as int, face_num as nat),
{
    let len = raw.len();
    let mut faces: Vec<[i32; 3]> = Vec::new();
    let mut i: usize = 0;
    while i < face_num
        invariant
            len == raw@.len(),
            i <= face_num,
            start + 12 * face_num <= raw@.len(),
            faces@ == triples_at(raw@, start as int, i as nat),
        decreases face_num - i,
    {
        let off = start + 12 * i;
        faces.push(read_i32_triple(raw, off));
        i = i + 1;
        assert(faces@ =~= triples_at(raw@, start as int, i as nat));
    }
    faces
}

/// Decodes `face_uv_num` texture-index triples from
/// `raw[start..start + 12 * face_uv_num]`.
pub fn decode_face_uvs(raw: &[u8], start: usize, face_uv_num: usize) -> (fuvs: Vec<[i32; 3]>)
    requires
        start + 12 * face_uv_num <= raw@.len(),
    ensures
        fuvs@ == triples_at(raw@, start as int, face_uv_num as nat),
{
    decode_faces(raw, start, face_uv_num)
}

/// Decodes `uv_num` texture coordinates (two little-endian `f32` each, kept as
/// bits) from `raw[start..start + 8 * uv_num]`.
pub fn decode_uvs(raw: &[u8], start: usize, uv_num: usize) -> (uvs: Vec<[u32; 2]>)
    requires
        start + 8 * uv_num <= raw@.len(),
    ensures
        uvs@ == pairs_at(raw@, start as int, uv_num as nat),
{
    let len = raw.len();
    let mut uvs: Vec<[u32; 2]> = Vec::new();
    let mut i: usize = 0;
    while i < uv_num
        invariant
            len == raw@.len(),
            i <= uv_num,
            start + 8 * uv_num <= raw@.len(),
            uvs@ == pairs_at(raw@, start as int, i as nat),
        decreases uv_num - i,
    {
        let off = start + 8 * i;
        uvs.push([read_u32_le(raw, off), read_u32_le(raw, off + 4)]);
        i = i + 1;
        assert(uvs@ =~= pairs_at(raw@, start as int, i as nat));
    }
    uvs
}

/// Decodes `tid_num` little-endian `i32` texture ids from
/// `raw[start..start + 4 * tid_num]`.
pub fn decode_texture_ids(raw: &[u8], start: usize, tid_num: usize) -> (ids: Vec<i32>)
    requires
        start + 4 * tid_num <= raw@.len(),
    ensures
        ids@ == ints_at(raw@, start as int, tid_num as nat),
{
    let len = raw.len();
    let mut ids: Vec<i32> = Vec::new();
    let mut i: usize = 0;
    while i < tid_num
        invariant
            len == raw@.len(),
            i <= tid_num,
            start + 4 * tid_num <= raw@.len(),
            ids@ == ints_at(raw@, start as int, i as nat),
        decreases tid_num - i,
    {
        ids.push(read_i32_le(raw, start + 4 * i));
        i = i + 1;
        assert(ids@ =~= ints_at(raw@, start as int, i as nat));
    }
    ids
}

/// Appends the four little-endian bytes of `x`.
pub fn push_u32_le(out: &mut Vec<u8>, x: u32)
    ensures
        final(out)@ == old(out)@ + u32_le_bytes(x),
{
    out.push((x % 256) as u8);
    out.push(((x / 256) % 256) as u8);
    out.push(((x / 65536) % 256) as u8);
    out.push((x / 16777216) as u8);
    assert(final(out)@ =~= old(out)@ + u32_le_bytes(x));
}

/// Appends the four little-endian (two's complement) bytes of `x`.
pub fn push_i32_le(out: &mut Vec<u8>, x: i32)
    ensures
        final(out)@ == old(out)@ + i32_le_bytes(x),
{
    push_u32_le(out, x as u32);
}

/// Reading back the four bytes written for `x` gives `x`.
pub proof fn lemma_u32_le_roundtrip(x: u32, pre: Seq<u8>, post: Seq<u8>)
    ensures
        u32_le(pre + u32_le_bytes(x) + post, pre.len() as int) == x,
{
    let b = pre + u32_le_bytes(x) + post;
    let p = pre.len() as int;
    assert(b[p] == (x % 256) as u8);
    assert(b[p + 1] == ((x / 256) % 256) as u8);
    assert(b[p + 2] == ((x / 65536) % 256) as u8);
    assert(b[p + 3] == (x / 16777216) as u8);
}

/// Reading back the four bytes written for `x` gives `x`.
pub proof fn lemma_i32_le_roundtrip(x: i32, pre: Seq<u8>, post: Seq<u8>)
    ensures
        i32_le(pre + i32_le_bytes(x) + post, pre.len() as int) == x,
{
    lemma_u32_le_roundtrip(x as u32, pre, post);
    assert((x as u32) as i32 == x) by (bit_vector);
}

/// The twelve little-endian bytes of three `u32`.
pub open spec fn u32_triple_bytes(t: [u32; 3]) -> Seq<u8> {
    u32_le_bytes(t[0]) + u32_le_bytes(t[1]) + u32_le_bytes(t[2])
}

/// The twelve little-endian bytes of three `i32`.
pub open spec fn i32_triple_bytes(t: [i32; 3]) -> Seq<u8> {
    i32_le_bytes(t[0]) + i32_le_bytes(t[1]) + i32_le_bytes(t[2])
}

/// Appends the twelve little-endian bytes of three `u32`.
pub fn push_u32_triple(out: &mut Vec<u8>, t: [u32; 3])
    ensures
        final(out)@ == old(out)@ + u32_triple_bytes(t),
{
    push_u32_le(out, t[0]);
    push_u32_le(out, t[1]);
    push_u32_le(out, t[2]);
    assert(final(out)@ =~= old(out)@ + u32_triple_bytes(t));
}

/// Appends the twelve little-endian bytes of three `i32`.
pub fn push_i32_triple(out: &mut Vec<u8>, t: [i32; 3])
    ensures
        final(out)@ == old(out)@ + i32_triple_bytes(t),
{
    push_i32_le(out, t[0]);
    push_i32_le(out, t[1]);
    push_i32_le(out, t[2]);
    assert(final(out)@ =~= old(out)@ + i32_triple_bytes(t));
}

/// Appends the bytes of `src`.
pub fn push_bytes(out: &mut Vec<u8>, src: &[u8])
    ensures
        final(out)@ == old(out)@ + src@,
{
    let ghost start = out@;
    let mut i: usize = 0;
    while i < src.len()
        invariant
            i <= src@.len(),
            out@ == start + src@.subrange(0, i as int),
        decreases src@.len() - i,
    {
        out.push(src[i]);
        i = i + 1;
        assert(out@ =~= start + src@.subrange(0, i as int));
    }
    assert(src@.subrange(0, i as int) =~= src@);
}

/// Appends the UTF-8 bytes of `s`.
pub fn push_text_bytes(out: &mut Vec<u8>, s: &String)
    ensures
        final(out)@ == old(out)@ + vstd::utf8::encode_utf8(s@),
{
    push_bytes(out, s.as_str().as_bytes());
}

/// Appends `n` zero bytes.
pub fn push_zeros(out: &mut Vec<u8>, n: usize)
    ensures
        final(out)@ == old(out)@ + Seq::new(n as nat, |i: int| 0u8),
{
    let ghost start = out@;
    let mut i: usize = 0;
    while i < n
        invariant
            i <= n,
            out@ == start + Seq::new(i as nat, |j: int| 0u8),
        decreases n - i,
    {
        out.push(0u8);
        i = i + 1;
        assert(out@ =~= start + Seq::new(i as nat, |j: int| 0u8));
    }
}

/// Every vertex as three little-endian `u32`, one after the other.
pub open spec fn vertex_records(vs: Seq<[u32; 3]>) -> Seq<u8>
    decreases vs.len(),
{
    if vs.len() == 0 {
        Seq::empty()
    } else {
        vertex_records(vs.drop_last()) + u32_triple_bytes(vs.last())
    }
}

/// Every triangle as three little-endian `i32`, one after the other.
pub open spec fn index_records(fs: Seq<[i32; 3]>) -> Seq<u8>
    decreases fs.len(),
{
    if fs.len() == 0 {
        Seq::empty()
    } else {
        index_records(fs.drop_last()) + i32_triple_bytes(fs.last())
    }
}

/// Appends every vertex as three little-endian `u32`.
pub fn push_vertex_records(out: &mut Vec<u8>, vs: &Vec<[u32; 3]>)
    ensures
        final(out)@ == old(out)@ + vertex_records(vs@),
{
    let ghost start = out@;
    let mut i: usize = 0;
    while i < vs.len()
        invariant
            i <= vs@.len(),
            out@ == start + vertex_records(vs@.take(i as int)),
        decreases vs@.len() - i,
    {
        push_u32_triple(out, vs[i]);
        assert(vs@.take(i + 1).drop_last() =~= vs@.take(i as int));
        i = i + 1;
        assert(out@ =~= start + vertex_records(vs@.take(i as int)));
    }
    assert(vs@.take(i as int) =~= vs@);
}

/// Appends every triangle as three little-endian `i32`.
pub fn push_index_records(out: &mut Vec<u8>, fs: &Vec<[i32; 3]>)
    ensures
        final(out)@ == old(out)@ + index_records(fs@),
{
    let ghost start = out@;
    let mut i: usize = 0;
    while i < fs.len()
        invariant
            i <= fs@.len(),
            out@ == start + index_records(fs@.take(i as int)),
        decreases fs@.len() - i,
    {
        push_i32_triple(out, fs[i]);
        assert(fs@.take(i + 1).drop_last() =~= fs@.take(i as int));
        i = i + 1;
        assert(out@ =~= start + index_records(fs@.take(i as int)));
    }
    assert(fs@.take(i as int) =~= fs@);
}

/// Three `u32` read back from their twelve bytes.
pub proof fn lemma_u32_triple_read_back(t: [u32; 3], pre: Seq<u8>, post: Seq<u8>)
    ensures
        u32_triple_at(pre + u32_triple_bytes(t) + post, pre.len() as int) == t,
{
    let p = pre.len() as int;
    let whole = pre + u32_triple_bytes(t) + post;
    let b0 = u32_le_bytes(t[0]);
    let b1 = u32_le_bytes(t[1]);
    let b2 = u32_le_bytes(t[2]);
    assert(whole =~= pre + b0 + (b1 + b2 + post));
    lemma_u32_le_roundtrip(t[0], pre, b1 + b2 + post);
    assert(whole =~= (pre + b0) + b1 + (b2 + post));
    lemma_u32_le_roundtrip(t[1], pre + b0, b2 + post);
    assert(whole =~= (pre + b0 + b1) + b2 + post);
    lemma_u32_le_roundtrip(t[2], pre + b0 + b1, post);
    assert(u32_triple_at(whole, p) =~= t);
}

/// Three `i32` read back from their twelve bytes.
proof fn lemma_i32_triple_read_back(t: [i32; 3], pre: Seq<u8>, post: Seq<u8>)
    ensures
        i32_triple_at(pre + i32_triple_bytes(t) + post, pre.len() as int) == t,
{
    let p = pre.len() as int;
    let whole = pre + i32_triple_bytes(t) + post;
    let b0 = i32_le_bytes(t[0]);
    let b1 = i32_le_bytes(t[1]);
    let b2 = i32_le_bytes(t[2]);
    assert(whole =~= pre + b0 + (b1 + b2 + post));
    lemma_i32_le_roundtrip(t[0], pre, b1 + b2 + post);
    assert(whole =~= (pre + b0) + b1 + (b2 + post));
    lemma_i32_le_roundtrip(t[1], pre + b0, b2 + post);
    assert(whole =~= (pre + b0 + b1) + b2 + post);
    lemma_i32_le_roundtrip(t[2], pre + b0 + b1, post);
    assert(i32_triple_at(whole, p) =~= t);
}

/// Vertex records read back as the vertices they were written from,
/// wherever they stand.
pub proof fn lemma_vertex_records_read_back(vs: Seq<[u32; 3]>, pre: Seq<u8>, post: Seq<u8>)
    ensures
        vertex_records(vs).len() == 12 * vs.len(),
        vertices_at(pre + vertex_records(vs) + post, pre.len() as int, vs.len()) == vs,
    decreases vs.len(),
{
    if vs.len() > 0 {
        let init = vs.drop_last();
        let t = u32_triple_bytes(vs.last());
        lemma_vertex_records_read_back(init, pre, t + post);
        let whole = pre + vertex_records(vs) + post;
        assert(whole =~= pre + vertex_records(init) + (t + post));
        assert(whole =~= (pre + vertex_records(init)) + t + post);
        lemma_u32_triple_read_back(vs.last(), pre + vertex_records(init), post);
        let got = vertices_at(whole, pre.len() as int, vs.len());
        let before = vertices_at(whole, pre.len() as int, init.len());
        assert forall|i: int| 0 <= i < vs.len() implies got[i] == vs[i] by {
            if i < init.len() {
                assert(got[i] == before[i]);
            }
        }
        assert(got =~= vs);
    }
}

/// Index records read back as the triangles they were written from,
/// wherever they stand.
pub proof fn lemma_index_records_read_back(fs: Seq<[i32; 3]>, pre: Seq<u8>, post: Seq<u8>)
    ensures
        index_records(fs).len() == 12 * fs.len(),
        triples_at(pre + index_records(fs) + post, pre.len() as int, fs.len()) == fs,
    decreases fs.len(),
{
    if fs.len() > 0 {
        let init = fs.drop_last();
        let t = i32_triple_bytes(fs.last());
        lemma_index_records_read_back(init, pre, t + post);
        let whole = pre + index_records(fs) + post;
        assert(whole =~= pre + index_records(init) + (t + post));
        assert(whole =~= (pre + index_records(init)) + t + post);
        lemma_i32_triple_read_back(fs.last(), pre + index_records(init), post);
        let got = triples_at(whole, pre.len() as int, fs.len());
        let before = triples_at(whole, pre.len() as int, init.len());
        assert forall|i: int| 0 <= i < fs.len() implies got[i] == fs[i] by {
            if i < init.len() {
                assert(got[i] == before[i]);
            }
        }
        assert(got =~= fs);
    }
}

} // verus!
