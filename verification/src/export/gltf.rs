//! glTF 2.0: a JSON file and a binary buffer beside it.
use vstd::prelude::*;

use crate::bytes::{
    index_records, lemma_index_records_read_back, lemma_vertex_records_read_back,
    push_index_records, push_vertex_records, triples_at, vertex_records, vertices_at,
};
use crate::cxbin::mesh::CxbinMesh;
use crate::text::{is_split, nat_text, push_str, push_usize};

verus! {

/// Writes meshes as glTF (JSON plus binary buffer).
pub struct GltfExporter;

/// The files of a glTF export: the JSON text and the binary buffer.
pub struct GltfFiles {
    pub gltf: String,
    pub bin: Vec<u8>,
}

/// The binary buffer: every vertex (three little-endian `f32`), then every
/// triangle (three little-endian `i32`) — the layout of a CXBin geometry
/// block.
pub open spec fn gltf_bin_bytes(vertices: Seq<[u32; 3]>, faces: Seq<[i32; 3]>) -> Seq<u8> {
    vertex_records(vertices) + index_records(faces)
}

/// Law: the binary buffer reads back, with the decoders of the CXBin reader,
/// as the vertices and triangles it was written from; it is exactly as long
/// as a CXBin geometry block for them.
pub proof fn gltf_buffer_reads_back(vertices: Seq<[u32; 3]>, faces: Seq<[i32; 3]>)
    ensures
        gltf_bin_bytes(vertices, faces).len() == 12 * vertices.len() + 12 * faces.len(),
        vertices_at(gltf_bin_bytes(vertices, faces), 0, vertices.len()) == vertices,
        triples_at(gltf_bin_bytes(vertices, faces), 12 * vertices.len() as int, faces.len()) == faces,
{
    let e = Seq::<u8>::empty();
    let bin = gltf_bin_bytes(vertices, faces);
    lemma_vertex_records_read_back(vertices, e, index_records(faces));
    lemma_index_records_read_back(faces, vertex_records(vertices), e);
    assert(e + vertex_records(vertices) + index_records(faces) =~= bin);
    assert(vertex_records(vertices) + index_records(faces) + e =~= bin);
}

/// The JSON text for `nv` vertices and `nf` triangles, with the buffer at
/// `uri`.
pub open spec fn gltf_json_text(nv: nat, nf: nat, uri: Seq<char>) -> Seq<char> {
    "{\n  \"asset\": {\"version\": \"2.0\"},\n  \"scene\": 0,\n  \"scenes\": [{\"nodes\": [0]}],\n  \"nodes\": [{\"mesh\": 0}],\n  \"meshes\": [{\n    \"primitives\": [{\n      \"attributes\": {\"POSITION\": 0},\n      \"indices\": 1,\n      \"material\": 0\n    }]\n  }],\n  \"materials\": [{\"pbrMetallicRoughness\": {\"baseColorFactor\": [0.13, 0.77, 0.37, 1.0], \"metallicFactor\": 0.1, \"roughnessFactor\": 0.5}}],\n  \"accessors\": [\n    {\"bufferView\": 0, \"componentType\": 5126, \"count\": "@
        + nat_text(nv)
        + ", \"type\": \"VEC3\"},\n    {\"bufferView\": 1, \"componentType\": 5125, \"count\": "@
        + nat_text(3 * nf)
        + ", \"type\": \"SCALAR\"}\n  ],\n  \"bufferViews\": [\n    {\"buffer\": 0, \"byteOffset\": 0, \"byteLength\": "@
        + nat_text(12 * nv) + "},\n    {\"buffer\": 0, \"byteOffset\": "@ + nat_text(12 * nv)
        + ", \"byteLength\": "@ + nat_text(12 * nf) + "}\n  ],\n  \"buffers\": [{\"uri\": \""@ + uri
        + "\", \"byteLength\": "@ + nat_text(12 * nv + 12 * nf) + "}]\n}\n"@
}

/// Appends the binary buffer of `mesh`.
pub fn push_bin(out: &mut Vec<u8>, mesh: &CxbinMesh)
    ensures
        final(out)@ == old(out)@ + gltf_bin_bytes(mesh.vertices@, mesh.faces@),
{
    push_vertex_records(out, &mesh.vertices);
    push_index_records(out, &mesh.faces);
    assert(final(out)@ =~= old(out)@ + gltf_bin_bytes(mesh.vertices@, mesh.faces@));
}

/// The binary buffer of `mesh`.
pub fn write_bin(mesh: &CxbinMesh) -> (out: Vec<u8>)
    ensures
        out@ == gltf_bin_bytes(mesh.vertices@, mesh.faces@),
{
    let mut out: Vec<u8> = Vec::new();
    push_bin(&mut out, mesh);
    assert(out@ =~= gltf_bin_bytes(mesh.vertices@, mesh.faces@));
    out
}

/// The JSON text for `mesh` with its buffer at `bin_uri`. The byte lengths
/// must fit in `usize`.
pub fn gltf_json(mesh: &CxbinMesh, bin_uri: &str) -> (s: String)
    requires
        12 * mesh.vertices@.len() + 12 * mesh.faces@.len() <= usize::MAX,
    ensures
        s@ == gltf_json_text(mesh.vertices@.len(), mesh.faces@.len(), bin_uri@),
{
    let vertex_count = mesh.vertex_count();
    let index_count = mesh.face_count() * 3;
    let positions_byte_length = vertex_count * 3 * 4;
    let indices_byte_length = index_count * 4;
    let mut s = String::new();
    push_str(
        &mut s,
        "{\n  \"asset\": {\"version\": \"2.0\"},\n  \"scene\": 0,\n  \"scenes\": [{\"nodes\": [0]}],\n  \"nodes\": [{\"mesh\": 0}],\n  \"meshes\": [{\n    \"primitives\": [{\n      \"attributes\": {\"POSITION\": 0},\n      \"indices\": 1,\n      \"material\": 0\n    }]\n  }],\n  \"materials\": [{\"pbrMetallicRoughness\": {\"baseColorFactor\": [0.13, 0.77, 0.37, 1.0], \"metallicFactor\": 0.1, \"roughnessFactor\": 0.5}}],\n  \"accessors\": [\n    {\"bufferView\": 0, \"componentType\": 5126, \"count\": ",
    );
    push_usize(&mut s, vertex_count);
    push_str(
        &mut s,
        ", \"type\": \"VEC3\"},\n    {\"bufferView\": 1, \"componentType\": 5125, \"count\": ",
    );
    push_usize(&mut s, index_count);
    push_str(
        &mut s,
        ", \"type\": \"SCALAR\"}\n  ],\n  \"bufferViews\": [\n    {\"buffer\": 0, \"byteOffset\": 0, \"byteLength\": ",
    );
    push_usize(&mut s, positions_byte_length);
    push_str(&mut s, "},\n    {\"buffer\": 0, \"byteOffset\": ");
    push_usize(&mut s, positions_byte_length);
    push_str(&mut s, ", \"byteLength\": ");
    push_usize(&mut s, indices_byte_length);
    push_str(&mut s, "}\n  ],\n  \"buffers\": [{\"uri\": \"");
    push_str(&mut s, bin_uri);
    push_str(&mut s, "\", \"byteLength\": ");
    push_usize(&mut s, positions_byte_length + indices_byte_length);
    push_str(&mut s, "}]\n}\n");
    assert(s@ =~= gltf_json_text(mesh.vertices@.len(), mesh.faces@.len(), bin_uri@));
    s
}

impl GltfExporter {
    /// The JSON text and binary buffer of `mesh`, the buffer referred to as
    /// `bin_name`.
    pub fn render(&self, mesh: &CxbinMesh, bin_name: &str) -> (files: GltfFiles)
        requires
            12 * mesh.vertices@.len() + 12 * mesh.faces@.len() <= usize::MAX,
        ensures
            files.bin@ == gltf_bin_bytes(mesh.vertices@, mesh.faces@),
            files.gltf@ == gltf_json_text(mesh.vertices@.len(), mesh.faces@.len(), bin_name@),
    {
        GltfFiles { gltf: gltf_json(mesh, bin_name), bin: write_bin(mesh) }
    }
}

/// The numbers of the glTF JSON, from the position count on, as they must be
/// for the buffer of `vertices` and `faces` stored at `uri`: the number of
/// positions, the number of indices (three per triangle), the byte length of
/// the position records, the offset and byte length of the index records,
/// the buffer's URI and the byte length of the whole buffer.
pub open spec fn gltf_json_numbers(
    vertices: Seq<[u32; 3]>,
    faces: Seq<[i32; 3]>,
    uri: Seq<char>,
) -> Seq<char> {
    nat_text(vertices.len()) + ", \"type\": \"VEC3\"},\n    {\"bufferView\": 1, \"componentType\": 5125, \"count\": "@ + nat_text(3 * faces.len()) + ", \"type\": \"SCALAR\"}\n  ],\n  \"bufferViews\": [\n    {\"buffer\": 0, \"byteOffset\": 0, \"byteLength\": "@ + nat_text(
        vertex_records(vertices).len(),
    ) + "},\n    {\"buffer\": 0, \"byteOffset\": "@ + nat_text(vertex_records(vertices).len()) + ", \"byteLength\": "@ + nat_text(index_records(faces).len())
        + "}\n  ],\n  \"buffers\": [{\"uri\": \""@ + uri + "\", \"byteLength\": "@ + nat_text(gltf_bin_bytes(vertices, faces).len())
}

/// Law: the glTF JSON describes the binary buffer written beside it: its
/// accessors count the vertices and the indices, its buffer views cover the
/// position records and then the index records, at their true offsets and
/// lengths, and its buffer has the buffer's true length.
pub proof fn gltf_json_describes_buffer(
    vertices: Seq<[u32; 3]>,
    faces: Seq<[i32; 3]>,
    uri: Seq<char>,
)
    ensures
        exists|pre: Seq<char>, post: Seq<char>|
            #[trigger] is_split(
                gltf_json_text(vertices.len(), faces.len(), uri),
                pre,
                gltf_json_numbers(vertices, faces, uri),
                post,
            ),
{
    let e = Seq::<u8>::empty();
    lemma_vertex_records_read_back(vertices, e, e);
    lemma_index_records_read_back(faces, e, e);
    gltf_buffer_reads_back(vertices, faces);
    let nv = vertices.len();
    let nf = faces.len();
    lemma_gltf_json_split(nv, nf, uri);
    let pre = "{\n  \"asset\": {\"version\": \"2.0\"},\n  \"scene\": 0,\n  \"scenes\": [{\"nodes\": [0]}],\n  \"nodes\": [{\"mesh\": 0}],\n  \"meshes\": [{\n    \"primitives\": [{\n      \"attributes\": {\"POSITION\": 0},\n      \"indices\": 1,\n      \"material\": 0\n    }]\n  }],\n  \"materials\": [{\"pbrMetallicRoughness\": {\"baseColorFactor\": [0.13, 0.77, 0.37, 1.0], \"metallicFactor\": 0.1, \"roughnessFactor\": 0.5}}],\n  \"accessors\": [\n    {\"bufferView\": 0, \"componentType\": 5126, \"count\": "@;
    let post = "}]\n}\n"@;
    assert(gltf_json_numbers(vertices, faces, uri) == gltf_json_numbers_of(nv, nf, uri));
    assert(is_split(
        gltf_json_text(nv, nf, uri),
        pre,
        gltf_json_numbers(vertices, faces, uri),
        post,
    ));
}

/// The numbers of the glTF JSON for `nv` vertices and `nf` triangles.
spec fn gltf_json_numbers_of(nv: nat, nf: nat, uri: Seq<char>) -> Seq<char> {
    nat_text(nv) + ", \"type\": \"VEC3\"},\n    {\"bufferView\": 1, \"componentType\": 5125, \"count\": "@ + nat_text(3 * nf) + ", \"type\": \"SCALAR\"}\n  ],\n  \"bufferViews\": [\n    {\"buffer\": 0, \"byteOffset\": 0, \"byteLength\": "@ + nat_text(12 * nv) + "},\n    {\"buffer\": 0, \"byteOffset\": "@ + nat_text(12 * nv) + ", \"byteLength\": "@
        + nat_text(12 * nf) + "}\n  ],\n  \"buffers\": [{\"uri\": \""@ + uri + "\", \"byteLength\": "@ + nat_text(12 * nv + 12 * nf)
}

proof fn lemma_gltf_json_split(nv: nat, nf: nat, uri: Seq<char>)
    ensures
        gltf_json_text(nv, nf, uri) == "{\n  \"asset\": {\"version\": \"2.0\"},\n  \"scene\": 0,\n  \"scenes\": [{\"nodes\": [0]}],\n  \"nodes\": [{\"mesh\": 0}],\n  \"meshes\": [{\n    \"primitives\": [{\n      \"attributes\": {\"POSITION\": 0},\n      \"indices\": 1,\n      \"material\": 0\n    }]\n  }],\n  \"materials\": [{\"pbrMetallicRoughness\": {\"baseColorFactor\": [0.13, 0.77, 0.37, 1.0], \"metallicFactor\": 0.1, \"roughnessFactor\": 0.5}}],\n  \"accessors\": [\n    {\"bufferView\": 0, \"componentType\": 5126, \"count\": "@ + gltf_json_numbers_of(nv, nf, uri) + "}]\n}\n"@,
{
    assert(gltf_json_text(nv, nf, uri) =~= "{\n  \"asset\": {\"version\": \"2.0\"},\n  \"scene\": 0,\n  \"scenes\": [{\"nodes\": [0]}],\n  \"nodes\": [{\"mesh\": 0}],\n  \"meshes\": [{\n    \"primitives\": [{\n      \"attributes\": {\"POSITION\": 0},\n      \"indices\": 1,\n      \"material\": 0\n    }]\n  }],\n  \"materials\": [{\"pbrMetallicRoughness\": {\"baseColorFactor\": [0.13, 0.77, 0.37, 1.0], \"metallicFactor\": 0.1, \"roughnessFactor\": 0.5}}],\n  \"accessors\": [\n    {\"bufferView\": 0, \"componentType\": 5126, \"count\": "@ + gltf_json_numbers_of(nv, nf, uri) + "}]\n}\n"@);
}

} // verus!
