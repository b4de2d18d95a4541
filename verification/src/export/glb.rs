//! Binary glTF (GLB): one file holding the JSON and the binary buffer.
use vstd::prelude::*;
use vstd::utf8::encode_utf8;

use crate::bytes::{
    index_records, lemma_index_records_read_back, lemma_u32_le_roundtrip, lemma_vertex_records_read_back, push_bytes,
    push_index_records, push_text_bytes, push_u32_le, push_vertex_records, u32_le, u32_le_bytes,
    vertex_records, vertices_at,
};
use crate::cxbin::mesh::CxbinMesh;
use crate::text::{is_split, nat_text, push_str, push_usize};

verus! {

/// Writes meshes as GLB.
pub struct GlbExporter;

/// The number of zero bytes that bring `n` to a multiple of four.
pub open spec fn padding(n: nat) -> nat {
    ((4 - n % 4) % 4) as nat
}

/// `data` followed by zero bytes up to a multiple of four.
pub open spec fn padded(data: Seq<u8>) -> Seq<u8> {
    data + Seq::new(padding(data.len()), |i: int| 0u8)
}

/// Pads `data` with zero bytes to a multiple of four.
pub fn pad_to_4(data: Vec<u8>) -> (out: Vec<u8>)
    ensures
        out@ == padded(data@),
        out@.len() % 4 == 0,
{
    let ghost orig = data@;
    let mut data = data;
    while data.len() % 4 != 0
        invariant
            data@.len() >= orig.len(),
            data@.len() - orig.len() <= padding(orig.len()),
            (data@.len() - orig.len() + orig.len() % 4) % 4 == data@.len() % 4,
            data@ == orig + Seq::new((data@.len() - orig.len()) as nat, |i: int| 0u8),
        decreases (4 - data@.len() % 4) % 4,
    {
        data.push(0u8);
        assert(data@ =~= orig + Seq::new((data@.len() - orig.len()) as nat, |i: int| 0u8));
    }
    assert(data@.len() - orig.len() == padding(orig.len()));
    data
}

/// The JSON chunk text, before padding.
pub open spec fn glb_json_text(nv: nat, nf: nat, bin_len: nat) -> Seq<char> {
    "{\"asset\":{\"version\":\"2.0\"},\"scene\":0,\"scenes\":[{\"nodes\":[0]}],\"nodes\":[{\"mesh\":0}],\"meshes\":[{\"primitives\":[{\"attributes\":{\"POSITION\":0},\"indices\":1,\"material\":0}]}],\"materials\":[{\"pbrMetallicRoughness\":{\"baseColorFactor\":[0.13,0.77,0.37,1.0],\"metallicFactor\":0.1,\"roughnessFactor\":0.5}}],\"accessors\":[{\"bufferView\":0,\"componentType\":5126,\"count\":"@
        + nat_text(nv)
        + ",\"type\":\"VEC3\"},{\"bufferView\":1,\"componentType\":5125,\"count\":"@
        + nat_text(3 * nf)
        + ",\"type\":\"SCALAR\"}],\"bufferViews\":[{\"buffer\":0,\"byteOffset\":0,\"byteLength\":"@
        + nat_text(12 * nv) + "},{\"buffer\":0,\"byteOffset\":"@ + nat_text(12 * nv)
        + ",\"byteLength\":"@ + nat_text(12 * nf) + "}],\"buffers\":[{\"byteLength\":"@
        + nat_text(bin_len) + "}]}"@
}

/// The binary chunk: vertices, then triangles, padded.
pub open spec fn glb_bin_chunk(vertices: Seq<[u32; 3]>, faces: Seq<[i32; 3]>) -> Seq<u8> {
    padded(vertex_records(vertices) + index_records(faces))
}

/// The JSON chunk, padded.
pub open spec fn glb_json_chunk(vertices: Seq<[u32; 3]>, faces: Seq<[i32; 3]>) -> Seq<u8> {
    padded(
        encode_utf8(
            glb_json_text(
                vertices.len(),
                faces.len(),
                glb_bin_chunk(vertices, faces).len(),
            ),
        ),
    )
}

/// The GLB file fits the `u32` length fields without overflow, and its
/// buffers fit in memory.
pub open spec fn glb_fits(vertices: Seq<[u32; 3]>, faces: Seq<[i32; 3]>) -> bool {
    &&& 12 * vertices.len() + 12 * faces.len() + 3 <= usize::MAX
    &&& 28 + (glb_json_chunk(vertices, faces).len() as u32) + (glb_bin_chunk(
        vertices,
        faces,
    ).len() as u32) <= u32::MAX
}

/// A GLB file around the chunks `json` and `bin`: the header (magic,
/// version 2, total length), then each chunk with its length and type.
/// Lengths are taken as `u32`.
pub open spec fn glb_frame(json: Seq<u8>, bin: Seq<u8>) -> Seq<u8> {
    let jl = json.len() as u32;
    let bl = bin.len() as u32;
    u32_le_bytes(0x46546C67) + u32_le_bytes(2) + u32_le_bytes((28 + jl + bl) as u32)
        + u32_le_bytes(jl) + u32_le_bytes(0x4E4F534A) + json + u32_le_bytes(bl) + u32_le_bytes(
        0x004E4942,
    ) + bin
}

/// The GLB file of a mesh: its JSON chunk and its binary chunk, framed.
pub open spec fn glb_bytes(vertices: Seq<[u32; 3]>, faces: Seq<[i32; 3]>) -> Seq<u8> {
    glb_frame(glb_json_chunk(vertices, faces), glb_bin_chunk(vertices, faces))
}

fn bin_chunk(mesh: &CxbinMesh) -> (out: Vec<u8>)
    ensures
        out@ == glb_bin_chunk(mesh.vertices@, mesh.faces@),
{
    let mut bin: Vec<u8> = Vec::new();
    push_vertex_records(&mut bin, &mesh.vertices);
    push_index_records(&mut bin, &mesh.faces);
    assert(bin@ =~= vertex_records(mesh.vertices@) + index_records(mesh.faces@));
    pad_to_4(bin)
}

fn json_chunk(mesh: &CxbinMesh, bin_len: usize) -> (out: Vec<u8>)
    requires
        12 * mesh.vertices@.len() + 12 * mesh.faces@.len() <= usize::MAX,
        bin_len == glb_bin_chunk(mesh.vertices@, mesh.faces@).len(),
    ensures
        out@ == glb_json_chunk(mesh.vertices@, mesh.faces@),
{
    let vertex_count = mesh.vertex_count();
    let index_count = mesh.face_count() * 3;
    let mut json = String::new();
    push_str(
        &mut json,
        "{\"asset\":{\"version\":\"2.0\"},\"scene\":0,\"scenes\":[{\"nodes\":[0]}],\"nodes\":[{\"mesh\":0}],\"meshes\":[{\"primitives\":[{\"attributes\":{\"POSITION\":0},\"indices\":1,\"material\":0}]}],\"materials\":[{\"pbrMetallicRoughness\":{\"baseColorFactor\":[0.13,0.77,0.37,1.0],\"metallicFactor\":0.1,\"roughnessFactor\":0.5}}],\"accessors\":[{\"bufferView\":0,\"componentType\":5126,\"count\":",
    );
    push_usize(&mut json, vertex_count);
    push_str(&mut json, ",\"type\":\"VEC3\"},{\"bufferView\":1,\"componentType\":5125,\"count\":");
    push_usize(&mut json, index_count);
    push_str(
        &mut json,
        ",\"type\":\"SCALAR\"}],\"bufferViews\":[{\"buffer\":0,\"byteOffset\":0,\"byteLength\":",
    );
    push_usize(&mut json, vertex_count * 12);
    push_str(&mut json, "},{\"buffer\":0,\"byteOffset\":");
    push_usize(&mut json, vertex_count * 12);
    push_str(&mut json, ",\"byteLength\":");
    push_usize(&mut json, index_count * 4);
    push_str(&mut json, "}],\"buffers\":[{\"byteLength\":");
    push_usize(&mut json, bin_len);
    push_str(&mut json, "}]}");
    assert(json@ =~= glb_json_text(mesh.vertices@.len(), mesh.faces@.len(), bin_len as nat));
    let mut bytes: Vec<u8> = Vec::new();
    push_text_bytes(&mut bytes, &json);
    assert(bytes@ =~= encode_utf8(json@));
    pad_to_4(bytes)
}

/// The GLB file of `mesh`.
pub fn write_glb(mesh: &CxbinMesh) -> (out: Vec<u8>)
    requires
        glb_fits(mesh.vertices@, mesh.faces@),
    ensures
        out@ == glb_bytes(mesh.vertices@, mesh.faces@),
{
    let bin = bin_chunk(mesh);
    let json = json_chunk(mesh, bin.len());
    let json_len = json.len() as u32;
    let bin_len = bin.len() as u32;
    let total = 12 + 8 + json_len + 8 + bin_len;
    let mut out: Vec<u8> = Vec::new();
    push_u32_le(&mut out, 0x46546C67);
    push_u32_le(&mut out, 2);
    push_u32_le(&mut out, total);
    push_u32_le(&mut out, json_len);
    push_u32_le(&mut out, 0x4E4F534A);
    push_bytes(&mut out, json.as_slice());
    push_u32_le(&mut out, bin_len);
    push_u32_le(&mut out, 0x004E4942);
    push_bytes(&mut out, bin.as_slice());
    assert(out@ =~= glb_bytes(mesh.vertices@, mesh.faces@));
    out
}

/// Padding makes a multiple of four, with fewer than four bytes added.
pub proof fn lemma_padded(data: Seq<u8>)
    ensures
        padded(data).len() == data.len() + padding(data.len()),
        padding(data.len()) < 4,
        padded(data).len() % 4 == 0,
{
}

/// Law: a GLB file agrees with its own header. Where the whole file fits the
/// `u32` length field, that field is the file's length, the two chunk length
/// fields are the chunks' lengths, both chunks are a multiple of four bytes
/// long, and the vertices read back from the start of the binary chunk.
pub proof fn glb_header_matches_file(vertices: Seq<[u32; 3]>, faces: Seq<[i32; 3]>)
    requires
        28 + glb_json_chunk(vertices, faces).len() + glb_bin_chunk(vertices, faces).len()
            <= u32::MAX,
    ensures
        ({
            let b = glb_bytes(vertices, faces);
            let json = glb_json_chunk(vertices, faces);
            let bin = glb_bin_chunk(vertices, faces);
            &&& b.len() == 28 + json.len() + bin.len()
            &&& u32_le(b, 8) == b.len()
            &&& u32_le(b, 12) == json.len()
            &&& u32_le(b, 20 + json.len() as int) == bin.len()
            &&& json.len() % 4 == 0
            &&& bin.len() % 4 == 0
            &&& vertices_at(b, 28 + json.len() as int, vertices.len()) == vertices
        }),
{
    let json = glb_json_chunk(vertices, faces);
    let bin = glb_bin_chunk(vertices, faces);
    let data = vertex_records(vertices) + index_records(faces);
    lemma_padded(data);
    lemma_padded(encode_utf8(glb_json_text(vertices.len(), faces.len(), bin.len())));
    let rest = index_records(faces) + Seq::new(padding(data.len()), |i: int| 0u8);
    assert(bin =~= vertex_records(vertices) + rest);
    lemma_glb_frame(json, bin);
    lemma_glb_frame_vertices(json, vertices, rest);
}

/// The length fields of a frame read back, where the whole fits a `u32`.
proof fn lemma_glb_frame(json: Seq<u8>, bin: Seq<u8>)
    requires
        28 + json.len() + bin.len() <= u32::MAX,
    ensures
        glb_frame(json, bin).len() == 28 + json.len() + bin.len(),
        u32_le(glb_frame(json, bin), 8) == 28 + json.len() + bin.len(),
        u32_le(glb_frame(json, bin), 12) == json.len(),
        u32_le(glb_frame(json, bin), 20 + json.len() as int) == bin.len(),
{
    let b = glb_frame(json, bin);
    let jl = json.len() as u32;
    let bl = bin.len() as u32;
    let total = (28 + jl + bl) as u32;
    let h0 = u32_le_bytes(0x46546C67) + u32_le_bytes(2);
    let h1 = u32_le_bytes(jl) + u32_le_bytes(0x4E4F534A) + json;
    let h2 = u32_le_bytes(bl) + u32_le_bytes(0x004E4942);
    assert(b =~= h0 + u32_le_bytes(total) + (h1 + h2 + bin));
    lemma_u32_le_roundtrip(total, h0, h1 + h2 + bin);
    let pre1 = h0 + u32_le_bytes(total);
    let tail1 = u32_le_bytes(0x4E4F534A) + json + h2 + bin;
    assert(b =~= pre1 + u32_le_bytes(jl) + tail1);
    lemma_u32_le_roundtrip(jl, pre1, tail1);
    let pre2 = pre1 + h1;
    let tail2 = u32_le_bytes(0x004E4942) + bin;
    assert(b =~= pre2 + u32_le_bytes(bl) + tail2);
    lemma_u32_le_roundtrip(bl, pre2, tail2);
}

/// Vertex records at the start of the binary chunk read back.
proof fn lemma_glb_frame_vertices(json: Seq<u8>, vertices: Seq<[u32; 3]>, rest: Seq<u8>)
    ensures
        vertices_at(
            glb_frame(json, vertex_records(vertices) + rest),
            28 + json.len() as int,
            vertices.len(),
        ) == vertices,
{
    let bin = vertex_records(vertices) + rest;
    let b = glb_frame(json, bin);
    let jl = json.len() as u32;
    let bl = bin.len() as u32;
    let pre = u32_le_bytes(0x46546C67) + u32_le_bytes(2) + u32_le_bytes((28 + jl + bl) as u32)
        + u32_le_bytes(jl) + u32_le_bytes(0x4E4F534A) + json + u32_le_bytes(bl) + u32_le_bytes(
        0x004E4942,
    );
    assert(b =~= pre + vertex_records(vertices) + rest);
    lemma_vertex_records_read_back(vertices, pre, rest);
}

impl GlbExporter {
    /// Whether the GLB file of `mesh` can be written: its buffers fit in
    /// memory and its length fits the `u32` length field.
    pub fn fits(&self, mesh: &CxbinMesh) -> (r: bool)
        ensures
            r == glb_fits(mesh.vertices@, mesh.faces@),
    {
        let nv = mesh.vertex_count();
        let nf = mesh.face_count();
        if nv > (usize::MAX - 3) / 24 || nf > (usize::MAX - 3) / 24 {
            if 12 * (nv as u128) + 12 * (nf as u128) + 3 > usize::MAX as u128 {
                return false;
            }
        }
        let bin = bin_chunk(mesh);
        let json = json_chunk(mesh, bin.len());
        28 + (json.len() as u32) as u64 + (bin.len() as u32) as u64 <= u32::MAX as u64
    }

    /// The GLB file of `mesh`.
    pub fn render(&self, mesh: &CxbinMesh) -> (out: Vec<u8>)
        requires
            glb_fits(mesh.vertices@, mesh.faces@),
        ensures
            out@ == glb_bytes(mesh.vertices@, mesh.faces@),
    {
        write_glb(mesh)
    }
}

/// The numbers of the GLB JSON, from the position count on, as they must be
/// for the binary chunk of `vertices` and `faces`: the number of positions,
/// the number of indices (three per triangle), the byte length of the
/// position records, the offset and byte length of the index records, and
/// the byte length of the (padded) binary chunk.
pub open spec fn glb_json_numbers(vertices: Seq<[u32; 3]>, faces: Seq<[i32; 3]>) -> Seq<char> {
    nat_text(vertices.len()) + ",\"type\":\"VEC3\"},{\"bufferView\":1,\"componentType\":5125,\"count\":"@ + nat_text(3 * faces.len()) + ",\"type\":\"SCALAR\"}],\"bufferViews\":[{\"buffer\":0,\"byteOffset\":0,\"byteLength\":"@ + nat_text(
        vertex_records(vertices).len(),
    ) + "},{\"buffer\":0,\"byteOffset\":"@ + nat_text(vertex_records(vertices).len()) + ",\"byteLength\":"@ + nat_text(index_records(faces).len())
        + "}],\"buffers\":[{\"byteLength\":"@ + nat_text(glb_bin_chunk(vertices, faces).len())
}

/// Law: the JSON chunk of a GLB file describes its binary chunk: its
/// accessors count the vertices and the indices, its buffer views cover the
/// position records and then the index records, at their true offsets and
/// lengths, and its buffer has the binary chunk's length.
pub proof fn glb_json_describes_bin_chunk(vertices: Seq<[u32; 3]>, faces: Seq<[i32; 3]>)
    ensures
        exists|pre: Seq<char>, post: Seq<char>|
            #[trigger] is_split(
                glb_json_text(vertices.len(), faces.len(), glb_bin_chunk(vertices, faces).len()),
                pre,
                glb_json_numbers(vertices, faces),
                post,
            ),
{
    let e = Seq::<u8>::empty();
    lemma_vertex_records_read_back(vertices, e, e);
    lemma_index_records_read_back(faces, e, e);
    let bl = glb_bin_chunk(vertices, faces).len();
    let nv = vertices.len();
    let nf = faces.len();
    lemma_glb_json_split(nv, nf, bl);
    let pre = "{\"asset\":{\"version\":\"2.0\"},\"scene\":0,\"scenes\":[{\"nodes\":[0]}],\"nodes\":[{\"mesh\":0}],\"meshes\":[{\"primitives\":[{\"attributes\":{\"POSITION\":0},\"indices\":1,\"material\":0}]}],\"materials\":[{\"pbrMetallicRoughness\":{\"baseColorFactor\":[0.13,0.77,0.37,1.0],\"metallicFactor\":0.1,\"roughnessFactor\":0.5}}],\"accessors\":[{\"bufferView\":0,\"componentType\":5126,\"count\":"@;
    let post = "}]}"@;
    assert(glb_json_numbers(vertices, faces) == glb_json_numbers_of(nv, nf, bl));
    assert(is_split(glb_json_text(nv, nf, bl), pre, glb_json_numbers(vertices, faces), post));
}

/// The numbers of the GLB JSON for `nv` vertices, `nf` triangles and a
/// binary chunk of `bl` bytes.
spec fn glb_json_numbers_of(nv: nat, nf: nat, bl: nat) -> Seq<char> {
    nat_text(nv) + ",\"type\":\"VEC3\"},{\"bufferView\":1,\"componentType\":5125,\"count\":"@ + nat_text(3 * nf) + ",\"type\":\"SCALAR\"}],\"bufferViews\":[{\"buffer\":0,\"byteOffset\":0,\"byteLength\":"@ + nat_text(12 * nv) + "},{\"buffer\":0,\"byteOffset\":"@ + nat_text(12 * nv) + ",\"byteLength\":"@
        + nat_text(12 * nf) + "}],\"buffers\":[{\"byteLength\":"@ + nat_text(bl)
}

proof fn lemma_glb_json_split(nv: nat, nf: nat, bl: nat)
    ensures
        glb_json_text(nv, nf, bl) == "{\"asset\":{\"version\":\"2.0\"},\"scene\":0,\"scenes\":[{\"nodes\":[0]}],\"nodes\":[{\"mesh\":0}],\"meshes\":[{\"primitives\":[{\"attributes\":{\"POSITION\":0},\"indices\":1,\"material\":0}]}],\"materials\":[{\"pbrMetallicRoughness\":{\"baseColorFactor\":[0.13,0.77,0.37,1.0],\"metallicFactor\":0.1,\"roughnessFactor\":0.5}}],\"accessors\":[{\"bufferView\":0,\"componentType\":5126,\"count\":"@ + glb_json_numbers_of(nv, nf, bl) + "}]}"@,
{
    assert(glb_json_text(nv, nf, bl) =~= "{\"asset\":{\"version\":\"2.0\"},\"scene\":0,\"scenes\":[{\"nodes\":[0]}],\"nodes\":[{\"mesh\":0}],\"meshes\":[{\"primitives\":[{\"attributes\":{\"POSITION\":0},\"indices\":1,\"material\":0}]}],\"materials\":[{\"pbrMetallicRoughness\":{\"baseColorFactor\":[0.13,0.77,0.37,1.0],\"metallicFactor\":0.1,\"roughnessFactor\":0.5}}],\"accessors\":[{\"bufferView\":0,\"componentType\":5126,\"count\":"@ + glb_json_numbers_of(nv, nf, bl) + "}]}"@);
}

} // verus!
