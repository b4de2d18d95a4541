//! DXF, one `3DFACE` entity per triangle.
use vstd::prelude::*;

use super::mesh::{frame, indices_in_range, point_piece, push_point, MeshText, PointText};
use crate::text::{concat_n, is_split, lemma_concat_n_agree, push_str};

verus! {

/// Writes meshes as DXF.
pub struct DxfExporter;

/// The `3DFACE` entity of triangle `f`: its three corners, the third
/// repeated as the fourth.
pub open spec fn dxf_face(points: Seq<PointText>, f: [i32; 3]) -> Seq<char> {
    "0\n3DFACE\n"@ + point_piece(points[f[0] as int], frame("10\n", "\n20\n", "\n30\n", "\n"))
        + point_piece(points[f[1] as int], frame("11\n", "\n21\n", "\n31\n", "\n")) + point_piece(
        points[f[2] as int],
        frame("12\n", "\n22\n", "\n32\n", "\n"),
    ) + point_piece(points[f[2] as int], frame("13\n", "\n23\n", "\n33\n", "\n"))
}

/// The DXF file: empty header, tables and blocks sections, the entities,
/// an empty objects section.
pub open spec fn dxf_text_spec(t: MeshText) -> Seq<char> {
    "0\nSECTION\n2\nHEADER\n0\nENDSEC\n"@ + "0\nSECTION\n2\nTABLES\n0\nENDSEC\n"@
        + "0\nSECTION\n2\nBLOCKS\n0\nENDSEC\n"@ + "0\nSECTION\n2\nENTITIES\n"@ + concat_n(
        t.faces@.len(),
        |i: int| dxf_face(t.points@, t.faces@[i]),
    ) + "0\nENDSEC\n"@ + "0\nSECTION\n2\nOBJECTS\n0\nENDSEC\n"@ + "0\nEOF\n"@
}

fn push_dxf_face(out: &mut String, points: &Vec<PointText>, f: [i32; 3])
    requires
        0 <= f[0] < points@.len(),
        0 <= f[1] < points@.len(),
        0 <= f[2] < points@.len(),
    ensures
        final(out)@ == old(out)@ + dxf_face(points@, f),
{
    push_str(out, "0\n3DFACE\n");
    push_point(out, &points[f[0] as usize], "10\n", "\n20\n", "\n30\n", "\n");
    push_point(out, &points[f[1] as usize], "11\n", "\n21\n", "\n31\n", "\n");
    push_point(out, &points[f[2] as usize], "12\n", "\n22\n", "\n32\n", "\n");
    push_point(out, &points[f[2] as usize], "13\n", "\n23\n", "\n33\n", "\n");
    assert(final(out)@ =~= old(out)@ + dxf_face(points@, f));
}

/// The DXF file for `text`; every index must name a point.
pub fn dxf_text(text: &MeshText) -> (s: String)
    requires
        indices_in_range(text.faces@, text.points@.len() as int),
    ensures
        s@ == dxf_text_spec(*text),
{
    let mut out = String::new();
    push_str(&mut out, "0\nSECTION\n2\nHEADER\n0\nENDSEC\n");
    push_str(&mut out, "0\nSECTION\n2\nTABLES\n0\nENDSEC\n");
    push_str(&mut out, "0\nSECTION\n2\nBLOCKS\n0\nENDSEC\n");
    push_str(&mut out, "0\nSECTION\n2\nENTITIES\n");
    let ghost start = out@;
    let mut i: usize = 0;
    while i < text.faces.len()
        invariant
            i <= text.faces@.len(),
            indices_in_range(text.faces@, text.points@.len() as int),
            out@ == start + concat_n(i as nat, |j: int| dxf_face(text.points@, text.faces@[j])),
        decreases text.faces@.len() - i,
    {
        let f = text.faces[i];
        assert(0 <= text.faces@[i as int][0] < text.points@.len());
        assert(0 <= text.faces@[i as int][1] < text.points@.len());
        assert(0 <= text.faces@[i as int][2] < text.points@.len());
        push_dxf_face(&mut out, &text.points, f);
        i = i + 1;
    }
    push_str(&mut out, "0\nENDSEC\n");
    push_str(&mut out, "0\nSECTION\n2\nOBJECTS\n0\nENDSEC\n");
    push_str(&mut out, "0\nEOF\n");
    assert(out@ =~= dxf_text_spec(*text));
    out
}

impl DxfExporter {
    /// The DXF file for `text`; every index must name a point.
    pub fn render(&self, text: &MeshText) -> (s: String)
        requires
            indices_in_range(text.faces@, text.points@.len() as int),
        ensures
            s@ == dxf_text_spec(*text),
    {
        dxf_text(text)
    }
}

/// A corner of a `3DFACE` entity: group codes `1k`, `2k`, `3k` with the
/// point's x, y and z.
pub open spec fn dxf_corner(k: Seq<char>, p: PointText) -> Seq<char> {
    "1"@ + k + "\n"@ + p.x@ + "\n2"@ + k + "\n"@ + p.y@ + "\n3"@ + k + "\n"@ + p.z@ + "\n"@
}

/// The `3DFACE` entity of a triangle: its corners a, b, c as corners 0, 1,
/// 2, and c again as corner 3.
pub open spec fn dxf_entity(points: Seq<PointText>, f: [i32; 3]) -> Seq<char> {
    "0\n3DFACE\n"@ + dxf_corner("0"@, points[f[0] as int]) + dxf_corner("1"@, points[f[1] as int])
        + dxf_corner("2"@, points[f[2] as int]) + dxf_corner("3"@, points[f[2] as int])
}

/// One entity per triangle, in order.
pub open spec fn dxf_entities(t: MeshText) -> Seq<char> {
    concat_n(t.faces@.len(), |i: int| dxf_entity(t.points@, t.faces@[i]))
}

/// Law: the entities section holds exactly one `3DFACE` per triangle, in
/// order, whose four corners are the triangle's three corners with the last
/// repeated.
pub proof fn dxf_one_face_per_triangle(t: MeshText)
    ensures
        exists|pre: Seq<char>, post: Seq<char>|
            #[trigger] is_split(
                dxf_text_spec(t),
                pre + "0\nSECTION\n2\nENTITIES\n"@,
                dxf_entities(t),
                "0\nENDSEC\n"@ + post,
            ),
{
    reveal_strlit("0");
    reveal_strlit("1");
    reveal_strlit("2");
    reveal_strlit("3");
    reveal_strlit("10\n");
    reveal_strlit("11\n");
    reveal_strlit("12\n");
    reveal_strlit("13\n");
    reveal_strlit("\n20\n");
    reveal_strlit("\n21\n");
    reveal_strlit("\n22\n");
    reveal_strlit("\n23\n");
    reveal_strlit("\n30\n");
    reveal_strlit("\n31\n");
    reveal_strlit("\n32\n");
    reveal_strlit("\n33\n");
    reveal_strlit("\n");
    reveal_strlit("\n2");
    reveal_strlit("\n3");
    let a = |i: int| dxf_face(t.points@, t.faces@[i]);
    let b = |i: int| dxf_entity(t.points@, t.faces@[i]);
    assert forall|i: int| 0 <= i < t.faces@.len() implies #[trigger] a(i) == b(i) by {
        assert(a(i) =~= b(i));
    }
    lemma_concat_n_agree(t.faces@.len(), a, b);
    let pre = "0\nSECTION\n2\nHEADER\n0\nENDSEC\n"@ + "0\nSECTION\n2\nTABLES\n0\nENDSEC\n"@
        + "0\nSECTION\n2\nBLOCKS\n0\nENDSEC\n"@;
    let post = "0\nSECTION\n2\nOBJECTS\n0\nENDSEC\n"@ + "0\nEOF\n"@;
    assert(dxf_text_spec(t) =~= (pre + "0\nSECTION\n2\nENTITIES\n"@) + dxf_entities(t) + (
    "0\nENDSEC\n"@ + post));
    assert(is_split(
        dxf_text_spec(t),
        pre + "0\nSECTION\n2\nENTITIES\n"@,
        dxf_entities(t),
        "0\nENDSEC\n"@ + post,
    ));
}

} // verus!
