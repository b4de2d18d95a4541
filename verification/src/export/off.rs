//! OFF (Object File Format), ASCII.
use vstd::prelude::*;

use super::mesh::{
    faces_block, frame, lemma_triangle_lines, lemma_xyz_lines, points_block, push_faces,
    push_points, triangle_lines, xyz_lines, MeshText,
};
use crate::text::{nat_text, push_str, push_usize};

verus! {

/// Writes meshes as ASCII OFF.
pub struct OffExporter;

/// The OFF file: the `OFF` keyword, the vertex, face and edge counts (edges
/// are not listed: 0), one `x y z` line per vertex, one `3 a b c` line per
/// triangle.
pub open spec fn off_text(t: MeshText) -> Seq<char> {
    "OFF\n"@ + nat_text(t.points@.len()) + " "@ + nat_text(t.faces@.len()) + " 0\n"@
        + points_block(t.points@, ""@, frame("", " ", " ", "\n")) + faces_block(t.faces@, ""@, frame("3 ", " ", " ", "\n"), 0)
}

impl OffExporter {
    /// The OFF file for `text`.
    pub fn render(&self, text: &MeshText) -> (s: String)
        ensures
            s@ == off_text(*text),
    {
        let mut out = String::new();
        push_str(&mut out, "OFF\n");
        push_usize(&mut out, text.points.len());
        push_str(&mut out, " ");
        push_usize(&mut out, text.faces.len());
        push_str(&mut out, " 0\n");
        push_points(&mut out, &text.points, "", "", " ", " ", "\n");
        push_faces(&mut out, &text.faces, "", "3 ", " ", " ", "\n", 0);
        assert(out@ =~= off_text(*text));
        out
    }
}

/// Law: the OFF header gives the number of points and of triangles (and no
/// edges), and then come exactly one `x y z` line per point and one `3 a b c`
/// line per triangle, in order.
pub proof fn off_counts_match_lines(t: MeshText)
    ensures
        off_text(t) == "OFF\n"@ + nat_text(t.points@.len()) + " "@ + nat_text(t.faces@.len())
            + " 0\n"@ + xyz_lines(t.points@) + triangle_lines(t.faces@),
{
    lemma_xyz_lines(t.points@);
    lemma_triangle_lines(t.faces@);
}

} // verus!
