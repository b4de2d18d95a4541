//! PLY, binary little-endian flavour.
use vstd::prelude::*;
use vstd::utf8::encode_utf8;

use super::ply::{ply_header, push_ply_header};
use crate::bytes::{
    i32_le_bytes, i32_triple_bytes, lemma_vertex_records_read_back, push_i32_triple, push_text_bytes,
    push_u32_le, push_u32_triple, u32_le_bytes, u32_triple_bytes, vertex_records, vertices_at,
};
use crate::cxbin::mesh::CxbinMesh;
use crate::text::{concat_n, is_split, lemma_concat_n_agree, nat_text};

verus! {

/// Writes meshes as binary little-endian PLY.
pub struct PlyBinaryExporter;

/// Whether the mesh has exactly one texture coordinate per vertex.
pub open spec fn mesh_has_vertex_uvs(mesh: CxbinMesh) -> bool {
    mesh.uvs matches Some(u) && u@.len() == mesh.vertices@.len()
}

/// The record of vertex `i` with its texture coordinates.
pub open spec fn uv_vertex_record(vertices: Seq<[u32; 3]>, uvs: Seq<[u32; 2]>, i: int) -> Seq<u8> {
    u32_triple_bytes(vertices[i]) + u32_le_bytes(uvs[i][0]) + u32_le_bytes(uvs[i][1])
}

/// The record of face `i`.
pub open spec fn face_record(faces: Seq<[i32; 3]>, i: int) -> Seq<u8> {
    seq![3u8] + i32_triple_bytes(faces[i])
}

/// The vertex records: three coordinates (and two texture coordinates where
/// `uvs` is given), each four little-endian bytes.
pub open spec fn ply_vertex_bytes(vertices: Seq<[u32; 3]>, uvs: Option<Seq<[u32; 2]>>) -> Seq<u8> {
    match uvs {
        Some(uvs) => concat_n(vertices.len(), |i: int| uv_vertex_record(vertices, uvs, i)),
        None => concat_n(vertices.len(), |i: int| u32_triple_bytes(vertices[i])),
    }
}

/// The face records: the byte 3, then three little-endian `i32` indices.
pub open spec fn ply_face_bytes(faces: Seq<[i32; 3]>) -> Seq<u8> {
    concat_n(faces.len(), |i: int| face_record(faces, i))
}

/// The whole binary PLY file.
pub open spec fn ply_binary_bytes(mesh: CxbinMesh) -> Seq<u8> {
    let has_uvs = mesh_has_vertex_uvs(mesh);
    encode_utf8(
        ply_header(
            "format binary_little_endian 1.0\n"@,
            mesh.vertices@.len(),
            mesh.faces@.len(),
            has_uvs,
        ),
    ) + ply_vertex_bytes(
        mesh.vertices@,
        if has_uvs {
            Some(mesh.uvs.unwrap()@)
        } else {
            None
        },
    ) + ply_face_bytes(mesh.faces@)
}

impl PlyBinaryExporter {
    /// The binary PLY file for `mesh`.
    pub fn render(&self, mesh: &CxbinMesh) -> (out: Vec<u8>)
        ensures
            out@ == ply_binary_bytes(*mesh),
    {
        let has_uvs = match &mesh.uvs {
            Some(u) => u.len() == mesh.vertices.len(),
            None => false,
        };
        let mut header = String::new();
        push_ply_header(
            &mut header,
            "format binary_little_endian 1.0\n",
            mesh.vertices.len(),
            mesh.faces.len(),
            has_uvs,
        );
        let mut out: Vec<u8> = Vec::new();
        push_text_bytes(&mut out, &header);
        let ghost head = out@;
        match &mesh.uvs {
            Some(uvs) if has_uvs => {
                let mut i: usize = 0;
                while i < mesh.vertices.len()
                    invariant
                        i <= mesh.vertices@.len(),
                        uvs@.len() == mesh.vertices@.len(),
                        out@ == head + concat_n(
                            i as nat,
                            |j: int| uv_vertex_record(mesh.vertices@, uvs@, j),
                        ),
                    decreases mesh.vertices@.len() - i,
                {
                    let ghost before = out@;
                    let v = mesh.vertices[i];
                    let uv = uvs[i];
                    push_u32_triple(&mut out, v);
                    let ghost b1 = out@;
                    push_u32_le(&mut out, uv[0]);
                    let ghost b2 = out@;
                    push_u32_le(&mut out, uv[1]);
                    assert(b1 == before + u32_triple_bytes(mesh.vertices@[i as int]));
                    assert(b2 == b1 + u32_le_bytes(uvs@[i as int][0]));
                    assert(out@ == b2 + u32_le_bytes(uvs@[i as int][1]));
                    assert(out@ =~= before + uv_vertex_record(mesh.vertices@, uvs@, i as int));
                    i = i + 1;
                }
            },
            _ => {
                let mut i: usize = 0;
                while i < mesh.vertices.len()
                    invariant
                        i <= mesh.vertices@.len(),
                        out@ == head + concat_n(
                            i as nat,
                            |j: int| u32_triple_bytes(mesh.vertices@[j]),
                        ),
                    decreases mesh.vertices@.len() - i,
                {
                    push_u32_triple(&mut out, mesh.vertices[i]);
                    i = i + 1;
                }
            },
        }
        let ghost mid = out@;
        let mut i: usize = 0;
        while i < mesh.faces.len()
            invariant
                i <= mesh.faces@.len(),
                out@ == mid + concat_n(i as nat, |j: int| face_record(mesh.faces@, j)),
            decreases mesh.faces@.len() - i,
        {
            let ghost before = out@;
            out.push(3u8);
            let ghost b1 = out@;
            push_i32_triple(&mut out, mesh.faces[i]);
            assert(b1 =~= before + seq![3u8]);
            assert(out@ == b1 + i32_triple_bytes(mesh.faces@[i as int]));
            assert(out@ =~= before + face_record(mesh.faces@, i as int));
            i = i + 1;
        }
        assert(out@ =~= ply_binary_bytes(*mesh));
        out
    }
}

proof fn lemma_vertex_bytes_are_records(vs: Seq<[u32; 3]>, n: nat)
    requires
        n <= vs.len(),
    ensures
        concat_n(n, |i: int| u32_triple_bytes(vs[i])) == vertex_records(vs.take(n as int)),
    decreases n,
{
    if n > 0 {
        lemma_vertex_bytes_are_records(vs, (n - 1) as nat);
        assert(vs.take(n as int).drop_last() =~= vs.take(n - 1));
    } else {
        assert(vs.take(0) =~= Seq::<[u32; 3]>::empty());
    }
}

/// Law: a binary PLY file without texture coordinates holds the vertices
/// exactly: read back right after the header, twelve bytes each, they are the
/// mesh's vertices.
pub proof fn ply_binary_vertices_read_back(mesh: CxbinMesh)
    requires
        !mesh_has_vertex_uvs(mesh),
    ensures
        ({
            let header = encode_utf8(
                ply_header(
                    "format binary_little_endian 1.0\n"@,
                    mesh.vertices@.len(),
                    mesh.faces@.len(),
                    false,
                ),
            );
            vertices_at(ply_binary_bytes(mesh), header.len() as int, mesh.vertices@.len())
                == mesh.vertices@
        }),
{
    let vs = mesh.vertices@;
    let header = encode_utf8(
        ply_header("format binary_little_endian 1.0\n"@, vs.len(), mesh.faces@.len(), false),
    );
    lemma_vertex_bytes_are_records(vs, vs.len());
    assert(vs.take(vs.len() as int) =~= vs);
    lemma_vertex_records_read_back(vs, header, ply_face_bytes(mesh.faces@));
}

/// The binary record of one triangle: the byte 3, then its three indices as
/// little-endian `i32`.
pub open spec fn ply_binary_face_record(f: [i32; 3]) -> Seq<u8> {
    seq![3u8] + i32_le_bytes(f[0]) + i32_le_bytes(f[1]) + i32_le_bytes(f[2])
}

/// One binary record per triangle, in order.
pub open spec fn ply_binary_face_records(faces: Seq<[i32; 3]>) -> Seq<u8> {
    concat_n(faces.len(), |i: int| ply_binary_face_record(faces[i]))
}

/// The end of a PLY header that announces `nf` faces.
pub open spec fn ply_header_tail(nf: nat) -> Seq<char> {
    "element face "@ + nat_text(nf) + "\n"@ + "property list uchar int vertex_indices\n"@
        + "end_header\n"@
}

/// Law: a binary PLY file's header ends by announcing as many faces as the
/// mesh has triangles, and the file ends with exactly one record per
/// triangle (the byte 3 and the three indices), in order.
pub proof fn ply_binary_face_count_matches_records(mesh: CxbinMesh)
    ensures
        exists|pre: Seq<char>, mid: Seq<u8>|
            #[trigger] is_split(
                ply_binary_bytes(mesh),
                encode_utf8(pre + ply_header_tail(mesh.faces@.len())),
                mid,
                ply_binary_face_records(mesh.faces@),
            ),
{
    let faces = mesh.faces@;
    let a = |i: int| face_record(faces, i);
    let b = |i: int| ply_binary_face_record(faces[i]);
    assert forall|i: int| 0 <= i < faces.len() implies #[trigger] a(i) == b(i) by {
        assert(a(i) =~= b(i));
    }
    lemma_concat_n_agree(faces.len(), a, b);
    let has_uvs = mesh_has_vertex_uvs(mesh);
    let pre = "ply\n"@ + "format binary_little_endian 1.0\n"@ + "element vertex "@ + nat_text(
        mesh.vertices@.len(),
    ) + "\n"@ + "property float x\n"@ + "property float y\n"@ + "property float z\n"@ + (
    if has_uvs {
        "property float s\n"@ + "property float t\n"@
    } else {
        Seq::empty()
    });
    assert(ply_header(
        "format binary_little_endian 1.0\n"@,
        mesh.vertices@.len(),
        faces.len(),
        has_uvs,
    ) =~= pre + ply_header_tail(faces.len()));
    let mid = ply_vertex_bytes(
        mesh.vertices@,
        if has_uvs {
            Some(mesh.uvs.unwrap()@)
        } else {
            None
        },
    );
    assert(is_split(
        ply_binary_bytes(mesh),
        encode_utf8(pre + ply_header_tail(faces.len())),
        mid,
        ply_binary_face_records(faces),
    ));
}

} // verus!
