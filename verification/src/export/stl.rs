//! Binary STL.
use vstd::prelude::*;

use super::mesh::indices_in_range;
use crate::bytes::{
    lemma_u32_le_roundtrip, lemma_u32_triple_read_back, push_u32_le, push_u32_triple, push_zeros,
    u32_le, u32_le_bytes, u32_triple_at, u32_triple_bytes,
};
use crate::cxbin::mesh::CxbinMesh;
use crate::text::{concat_n, lemma_concat_n_uniform};

verus! {

/// Writes meshes as binary STL.
pub struct StlExporter;

/// One STL triangle record: the normal, the three corners, and a zero
/// attribute byte count.
pub open spec fn stl_record(normal: [u32; 3], a: [u32; 3], b: [u32; 3], c: [u32; 3]) -> Seq<u8> {
    u32_triple_bytes(normal) + u32_triple_bytes(a) + u32_triple_bytes(b) + u32_triple_bytes(c)
        + seq![0u8, 0u8]
}

/// The record of triangle `i`.
pub open spec fn stl_face_record(
    vertices: Seq<[u32; 3]>,
    faces: Seq<[i32; 3]>,
    normals: Seq<[u32; 3]>,
    i: int,
) -> Seq<u8> {
    stl_record(
        normals[i],
        vertices[faces[i][0] as int],
        vertices[faces[i][1] as int],
        vertices[faces[i][2] as int],
    )
}

/// The binary STL file: an 80-byte zero header, the triangle count as `u32`
/// (`len as u32`), one record per triangle.
pub open spec fn stl_bytes(
    vertices: Seq<[u32; 3]>,
    faces: Seq<[i32; 3]>,
    normals: Seq<[u32; 3]>,
) -> Seq<u8> {
    stl_head(faces.len()) + concat_n(faces.len(), stl_face_records(vertices, faces, normals))
}

/// The 80-byte zero header and the triangle count `n as u32`.
pub open spec fn stl_head(n: nat) -> Seq<u8> {
    Seq::new(80, |i: int| 0u8) + u32_le_bytes(n as u32)
}

/// The record of each triangle, by its index.
pub open spec fn stl_face_records(
    vertices: Seq<[u32; 3]>,
    faces: Seq<[i32; 3]>,
    normals: Seq<[u32; 3]>,
) -> spec_fn(int) -> Seq<u8> {
    |i: int| stl_face_record(vertices, faces, normals, i)
}

fn push_record(out: &mut Vec<u8>, normal: [u32; 3], a: [u32; 3], b: [u32; 3], c: [u32; 3])
    ensures
        final(out)@ == old(out)@ + stl_record(normal, a, b, c),
{
    push_u32_triple(out, normal);
    push_u32_triple(out, a);
    push_u32_triple(out, b);
    push_u32_triple(out, c);
    out.push(0u8);
    out.push(0u8);
    assert(final(out)@ =~= old(out)@ + stl_record(normal, a, b, c));
}

impl StlExporter {
    /// The binary STL file for `mesh`, with `normals[i]` (the bits of the
    /// unit normal of triangle `i`) as the normal of each triangle. Every
    /// index must name a vertex.
    pub fn render(&self, mesh: &CxbinMesh, normals: &Vec<[u32; 3]>) -> (out: Vec<u8>)
        requires
            normals@.len() == mesh.faces@.len(),
            indices_in_range(mesh.faces@, mesh.vertices@.len() as int),
        ensures
            out@ == stl_bytes(mesh.vertices@, mesh.faces@, normals@),
    {
        let mut out: Vec<u8> = Vec::new();
        push_zeros(&mut out, 80);
        push_u32_le(&mut out, mesh.faces.len() as u32);
        let ghost head = out@;
        let mut i: usize = 0;
        while i < mesh.faces.len()
            invariant
                i <= mesh.faces@.len(),
                normals@.len() == mesh.faces@.len(),
                indices_in_range(mesh.faces@, mesh.vertices@.len() as int),
                out@ == head + concat_n(
                    i as nat,
                    stl_face_records(mesh.vertices@, mesh.faces@, normals@),
                ),
            decreases mesh.faces@.len() - i,
        {
            let face = mesh.faces[i];
            assert(0 <= face[0] < mesh.vertices@.len() && 0 <= face[1] < mesh.vertices@.len() && 0
                <= face[2] < mesh.vertices@.len()) by {
                assert(0 <= mesh.faces@[i as int][0] < mesh.vertices@.len());
                assert(0 <= mesh.faces@[i as int][1] < mesh.vertices@.len());
                assert(0 <= mesh.faces@[i as int][2] < mesh.vertices@.len());
            }
            push_record(
                &mut out,
                normals[i],
                mesh.vertices[face[0] as usize],
                mesh.vertices[face[1] as usize],
                mesh.vertices[face[2] as usize],
            );
            i = i + 1;
        }
        out
    }
}

/// Law: a binary STL file reads back as what it was written from. It is 84
/// bytes plus 50 per triangle; the count after the header is the number of
/// triangles (where that fits in a `u32`); and the record of triangle `i`, at
/// `84 + 50 * i`, holds its normal and then its three corners, twelve bytes
/// each.
pub proof fn stl_triangles_read_back(
    vertices: Seq<[u32; 3]>,
    faces: Seq<[i32; 3]>,
    normals: Seq<[u32; 3]>,
)
    ensures
        ({
            let b = stl_bytes(vertices, faces, normals);
            &&& b.len() == 84 + 50 * faces.len()
            &&& faces.len() <= u32::MAX ==> u32_le(b, 80) == faces.len()
            &&& forall|i: int|
                0 <= i < faces.len() ==> {
                    &&& #[trigger] u32_triple_at(b, 84 + 50 * i) == normals[i]
                    &&& u32_triple_at(b, 84 + 50 * i + 12) == vertices[faces[i][0] as int]
                    &&& u32_triple_at(b, 84 + 50 * i + 24) == vertices[faces[i][1] as int]
                    &&& u32_triple_at(b, 84 + 50 * i + 36) == vertices[faces[i][2] as int]
                }
        }),
{
    let n = faces.len();
    lemma_stl_layout(vertices, faces, normals);
    assert forall|i: int| 0 <= i < n implies {
        &&& #[trigger] u32_triple_at(stl_bytes(vertices, faces, normals), 84 + 50 * i)
            == normals[i]
        &&& u32_triple_at(stl_bytes(vertices, faces, normals), 84 + 50 * i + 12)
            == vertices[faces[i][0] as int]
        &&& u32_triple_at(stl_bytes(vertices, faces, normals), 84 + 50 * i + 24)
            == vertices[faces[i][1] as int]
        &&& u32_triple_at(stl_bytes(vertices, faces, normals), 84 + 50 * i + 36)
            == vertices[faces[i][2] as int]
    } by {
        lemma_stl_layout(vertices, faces, normals);
        lemma_stl_record_read_back(
            stl_bytes(vertices, faces, normals),
            84 + 50 * i,
            normals[i],
            vertices[faces[i][0] as int],
            vertices[faces[i][1] as int],
            vertices[faces[i][2] as int],
        );
    }
}

/// The file is the header, the count and the records, 50 bytes each.
proof fn lemma_stl_layout(vertices: Seq<[u32; 3]>, faces: Seq<[i32; 3]>, normals: Seq<[u32; 3]>)
    ensures
        stl_bytes(vertices, faces, normals).len() == 84 + 50 * faces.len(),
        faces.len() <= u32::MAX ==> u32_le(stl_bytes(vertices, faces, normals), 80)
            == faces.len(),
        forall|i: int|
            0 <= i < faces.len() ==> #[trigger] stl_bytes(vertices, faces, normals).subrange(
                84 + 50 * i,
                84 + 50 * i + 50,
            ) == stl_face_record(vertices, faces, normals, i),
{
    let n = faces.len();
    let b = stl_bytes(vertices, faces, normals);
    let rec = stl_face_records(vertices, faces, normals);
    let body = concat_n(n, rec);
    let head = stl_head(n);
    assert forall|j: int| 0 <= j < n implies #[trigger] rec(j).len() == 50 by {
        lemma_stl_record_len(
            normals[j],
            vertices[faces[j][0] as int],
            vertices[faces[j][1] as int],
            vertices[faces[j][2] as int],
        );
    }
    lemma_concat_n_uniform(n, rec, 50);
    assert(head.len() == 84);
    if n <= u32::MAX {
        lemma_u32_le_roundtrip(n as u32, Seq::new(80, |i: int| 0u8), body);
        assert(b =~= Seq::new(80, |i: int| 0u8) + u32_le_bytes(n as u32) + body);
    }
    assert forall|i: int| 0 <= i < n implies #[trigger] b.subrange(84 + 50 * i, 84 + 50 * i + 50)
        == rec(i) by {
        assert(body.subrange(i * 50, i * 50 + 50) == rec(i));
        assert(b.subrange(84 + 50 * i, 84 + 50 * i + 50) =~= body.subrange(i * 50, i * 50 + 50));
    }
}

/// A record is 50 bytes long.
proof fn lemma_stl_record_len(normal: [u32; 3], a: [u32; 3], b: [u32; 3], c: [u32; 3])
    ensures
        stl_record(normal, a, b, c).len() == 50,
{
}

/// A record read back where it stands in `b`.
proof fn lemma_stl_record_read_back(
    b: Seq<u8>,
    p: int,
    normal: [u32; 3],
    a: [u32; 3],
    bb: [u32; 3],
    c: [u32; 3],
)
    requires
        0 <= p,
        p + 50 <= b.len(),
        b.subrange(p, p + 50) == stl_record(normal, a, bb, c),
    ensures
        u32_triple_at(b, p) == normal,
        u32_triple_at(b, p + 12) == a,
        u32_triple_at(b, p + 24) == bb,
        u32_triple_at(b, p + 36) == c,
{
    let r = stl_record(normal, a, bb, c);
    assert(b.subrange(p, p + 12) =~= u32_triple_bytes(normal)) by {
        assert(r.subrange(0, 12) =~= u32_triple_bytes(normal));
    }
    assert(b.subrange(p + 12, p + 24) =~= u32_triple_bytes(a)) by {
        assert(r.subrange(12, 24) =~= u32_triple_bytes(a));
    }
    assert(b.subrange(p + 24, p + 36) =~= u32_triple_bytes(bb)) by {
        assert(r.subrange(24, 36) =~= u32_triple_bytes(bb));
    }
    assert(b.subrange(p + 36, p + 48) =~= u32_triple_bytes(c)) by {
        assert(r.subrange(36, 48) =~= u32_triple_bytes(c));
    }
    lemma_u32_triple_in(b, p, normal);
    lemma_u32_triple_in(b, p + 12, a);
    lemma_u32_triple_in(b, p + 24, bb);
    lemma_u32_triple_in(b, p + 36, c);
}

/// Twelve bytes of `b` that encode `t` read back as `t`.
proof fn lemma_u32_triple_in(b: Seq<u8>, p: int, t: [u32; 3])
    requires
        0 <= p,
        p + 12 <= b.len(),
        b.subrange(p, p + 12) == u32_triple_bytes(t),
    ensures
        u32_triple_at(b, p) == t,
{
    let pre = b.subrange(0, p);
    let post = b.subrange(p + 12, b.len() as int);
    assert(b =~= pre + u32_triple_bytes(t) + post);
    lemma_u32_triple_read_back(t, pre, post);
}

} // verus!
