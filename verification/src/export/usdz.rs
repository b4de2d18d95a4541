//! USDZ: a USD stage (`usda` text) packed in a zip archive.
use vstd::prelude::*;

use super::mesh::{
    face_piece, faces_block, frame, lead, lemma_faces_block_is_join, lemma_points_block_is_join,
    point_piece, points_block, push_faces, push_points, MeshText, PointText,
};
use crate::text::{concat_n, int_text, is_split, join_n, lemma_concat_n_agree, lemma_join_agree, push_str};

verus! {

/// Writes meshes as USDZ.
pub struct UsdzExporter;

/// `3` for every triangle, joined by `, `.
pub open spec fn face_vertex_counts(nf: nat) -> Seq<char> {
    concat_n(nf, |i: int| lead(i, ", "@) + "3"@)
}

/// The USD stage: one mesh prim with its face vertex counts, face vertex
/// indices (`(a, b, c)` joined by `, `) and points (`(x y z)` joined by
/// `, `).
pub open spec fn usda_text_spec(t: MeshText) -> Seq<char> {
    "#usda 1.0\n(\n    defaultPrim = \"mesh\"\n    upAxis = \"Y\"\n    metersPerUnit = 0.001\n)\n\n\ndef Mesh \"mesh\"\n{\n    uniform bool doubleSided = true\n    int[] faceVertexCounts = ["@ + face_vertex_counts(t.faces@.len()) + "]\n    int[] faceVertexIndices = ["@ + faces_block(
        t.faces@,
        ", "@,
        frame("(", ", ", ", ", ")"),
        0,
    ) + "]\n    point3f[] points = ["@ + points_block(t.points@, ", "@, frame("(", " ", " ", ")")) + "]\n    color3f[] primvars:displayColor = [(0.13, 0.77, 0.37)]\n    uniform token subdivisionScheme = \"none\"\n}\n"@
}

/// The USD stage text of `text`.
pub fn usda_text(text: &MeshText) -> (s: String)
    ensures
        s@ == usda_text_spec(*text),
{
    let mut w = String::new();
    push_str(&mut w, "#usda 1.0\n(\n    defaultPrim = \"mesh\"\n    upAxis = \"Y\"\n    metersPerUnit = 0.001\n)\n\n\ndef Mesh \"mesh\"\n{\n    uniform bool doubleSided = true\n    int[] faceVertexCounts = [");
    let ghost start = w@;
    let mut i: usize = 0;
    while i < text.faces.len()
        invariant
            i <= text.faces@.len(),
            w@ == start + face_vertex_counts(i as nat),
        decreases text.faces@.len() - i,
    {
        if i > 0 {
            push_str(&mut w, ", ");
        }
        push_str(&mut w, "3");
        i = i + 1;
        assert(w@ =~= start + face_vertex_counts(i as nat));
    }
    push_str(&mut w, "]\n    int[] faceVertexIndices = [");
    push_faces(&mut w, &text.faces, ", ", "(", ", ", ", ", ")", 0);
    push_str(&mut w, "]\n    point3f[] points = [");
    push_points(&mut w, &text.points, ", ", "(", " ", " ", ")");
    push_str(&mut w, "]\n    color3f[] primvars:displayColor = [(0.13, 0.77, 0.37)]\n    uniform token subdivisionScheme = \"none\"\n}\n");
    assert(w@ =~= usda_text_spec(*text));
    w
}

impl UsdzExporter {
    /// The USD stage text of `text`, which the archive holds as `model.usda`.
    pub fn render(&self, text: &MeshText) -> (s: String)
        ensures
            s@ == usda_text_spec(*text),
    {
        usda_text(text)
    }
}

/// A triangle's indices as `(a, b, c)`.
pub open spec fn usd_index_tuple(f: [i32; 3]) -> Seq<char> {
    "("@ + int_text(f[0] as int) + ", "@ + int_text(f[1] as int) + ", "@ + int_text(f[2] as int)
        + ")"@
}

/// A point as `(x y z)`.
pub open spec fn usd_point_tuple(p: PointText) -> Seq<char> {
    "("@ + p.x@ + " "@ + p.y@ + " "@ + p.z@ + ")"@
}

/// The mesh arrays of the USD stage: a `3` per triangle, the triangles'
/// index tuples and the points' tuples, each joined by `, `.
pub open spec fn usd_arrays(t: MeshText) -> Seq<char> {
    join_n(t.faces@.len(), |i: int| "3"@, ", "@) + "]\n    int[] faceVertexIndices = ["@ + join_n(
        t.faces@.len(),
        |i: int| usd_index_tuple(t.faces@[i]),
        ", "@,
    ) + "]\n    point3f[] points = ["@ + join_n(
        t.points@.len(),
        |i: int| usd_point_tuple(t.points@[i]),
        ", "@,
    )
}

/// Law: the USD mesh gives one face vertex count `3` per triangle, then the
/// triangles' indices as `(a, b, c)`, then the points as `(x y z)`, each list
/// in order and joined by `, `.
pub proof fn usd_arrays_list_every_triangle_and_point(t: MeshText)
    ensures
        exists|pre: Seq<char>, post: Seq<char>|
            #[trigger] is_split(usda_text_spec(t), pre, usd_arrays(t), post),
{
    let nf = t.faces@.len();
    let a = |i: int| lead(i, ", "@) + "3"@;
    let b = |i: int|
        if i == 0 {
            (|j: int| "3"@)(i)
        } else {
            ", "@ + (|j: int| "3"@)(i)
        };
    assert forall|i: int| 0 <= i < nf implies #[trigger] a(i) == b(i) by {
        if i == 0 {
            assert(a(i) =~= b(i));
        }
    }
    lemma_concat_n_agree(nf, a, b);
    let ff = frame("(", ", ", ", ", ")");
    lemma_faces_block_is_join(t.faces@, ", "@, ff, 0);
    let c = |i: int| face_piece(t.faces@[i], ff, 0);
    let d = |i: int| usd_index_tuple(t.faces@[i]);
    assert forall|i: int| 0 <= i < nf implies #[trigger] c(i) == d(i) by {
        assert(c(i) =~= d(i));
    }
    lemma_join_agree(nf, c, d, ", "@);
    let pf = frame("(", " ", " ", ")");
    lemma_points_block_is_join(t.points@, ", "@, pf);
    let e = |i: int| point_piece(t.points@[i], pf);
    let g = |i: int| usd_point_tuple(t.points@[i]);
    assert forall|i: int| 0 <= i < t.points@.len() implies #[trigger] e(i) == g(i) by {
        assert(e(i) =~= g(i));
    }
    lemma_join_agree(t.points@.len(), e, g, ", "@);
    let pre = "#usda 1.0\n(\n    defaultPrim = \"mesh\"\n    upAxis = \"Y\"\n    metersPerUnit = 0.001\n)\n\n\ndef Mesh \"mesh\"\n{\n    uniform bool doubleSided = true\n    int[] faceVertexCounts = ["@;
    let post = "]\n    color3f[] primvars:displayColor = [(0.13, 0.77, 0.37)]\n    uniform token subdivisionScheme = \"none\"\n}\n"@;
    assert(usda_text_spec(t) =~= pre + usd_arrays(t) + post);
    assert(is_split(usda_text_spec(t), pre, usd_arrays(t), post));
}

} // verus!
