//! Legacy VTK, ASCII unstructured grid.
use vstd::prelude::*;

use super::mesh::{
    faces_block, frame, lemma_triangle_lines, lemma_xyz_lines, points_block, push_faces,
    push_points, triangle_lines, xyz_lines, MeshText,
};
use crate::text::{concat_n, is_split, nat_text, push_str, push_usize};

verus! {

/// Writes meshes as legacy VTK.
pub struct VtkExporter;

/// The VTK file: header, points, cells (`3 a b c`, with the total list size
/// `nf + 3 * nf`), and cell type 5 (triangle) for every cell.
pub open spec fn vtk_text(t: MeshText) -> Seq<char> {
    let nf = t.faces@.len();
    "# vtk DataFile Version 3.0\n"@ + "CXBin mesh export\n"@ + "ASCII\n"@
        + "DATASET UNSTRUCTURED_GRID\n"@ + "POINTS "@ + nat_text(t.points@.len()) + " float\n"@
        + points_block(t.points@, ""@, frame("", " ", " ", "\n")) + "CELLS "@ + nat_text(nf)
        + " "@ + nat_text(nf + 3 * nf) + "\n"@ + faces_block(
        t.faces@,
        ""@,
        frame("3 ", " ", " ", "\n"),
        0,
    ) + "CELL_TYPES "@ + nat_text(nf) + "\n"@ + concat_n(nf, |i: int| "5\n"@)
}

impl VtkExporter {
    /// The VTK file for `text`. Four times the triangle count must fit in
    /// `usize`.
    pub fn render(&self, text: &MeshText) -> (s: String)
        requires
            4 * text.faces@.len() <= usize::MAX,
        ensures
            s@ == vtk_text(*text),
    {
        let vertex_count = text.points.len();
        let face_count = text.faces.len();
        let triangle_count = face_count * 3;
        let mut out = String::new();
        push_str(&mut out, "# vtk DataFile Version 3.0\n");
        push_str(&mut out, "CXBin mesh export\n");
        push_str(&mut out, "ASCII\n");
        push_str(&mut out, "DATASET UNSTRUCTURED_GRID\n");
        push_str(&mut out, "POINTS ");
        push_usize(&mut out, vertex_count);
        push_str(&mut out, " float\n");
        push_points(&mut out, &text.points, "", "", " ", " ", "\n");
        push_str(&mut out, "CELLS ");
        push_usize(&mut out, face_count);
        push_str(&mut out, " ");
        push_usize(&mut out, face_count + triangle_count);
        push_str(&mut out, "\n");
        push_faces(&mut out, &text.faces, "", "3 ", " ", " ", "\n", 0);
        push_str(&mut out, "CELL_TYPES ");
        push_usize(&mut out, face_count);
        push_str(&mut out, "\n");
        let ghost start = out@;
        let mut i: usize = 0;
        while i < face_count
            invariant
                i <= face_count,
                out@ == start + concat_n(i as nat, |j: int| "5\n"@),
            decreases face_count - i,
        {
            push_str(&mut out, "5\n");
            i = i + 1;
        }
        assert(out@ =~= vtk_text(*text));
        out
    }
}

/// The cell types of `n` triangles: `5` on a line each.
pub open spec fn vtk_triangle_types(n: nat) -> Seq<char> {
    concat_n(n, |i: int| "5\n"@)
}

/// The body of a VTK file from the point count on.
pub open spec fn vtk_lists(t: MeshText) -> Seq<char> {
    let nf = t.faces@.len();
    "POINTS "@ + nat_text(t.points@.len()) + " float\n"@ + xyz_lines(t.points@) + "CELLS "@
        + nat_text(nf) + " "@ + nat_text(4 * nf) + "\n"@ + triangle_lines(t.faces@)
        + "CELL_TYPES "@ + nat_text(nf) + "\n"@ + vtk_triangle_types(nf)
}

/// Law: after its header, a VTK file gives the number of points and then one
/// `x y z` line per point; the number of cells and the size of the cell list
/// (four numbers per triangle) and then one `3 a b c` line per triangle; and
/// the number of cell types and then type 5 (triangle) once per triangle.
pub proof fn vtk_counts_match_lists(t: MeshText)
    ensures
        exists|pre: Seq<char>| #[trigger] is_split(vtk_text(t), pre, vtk_lists(t), Seq::empty()),
{
    lemma_xyz_lines(t.points@);
    lemma_triangle_lines(t.faces@);
    let nf = t.faces@.len();
    assert(nf + 3 * nf == 4 * nf);
    let pre = "# vtk DataFile Version 3.0\n"@ + "CXBin mesh export\n"@ + "ASCII\n"@
        + "DATASET UNSTRUCTURED_GRID\n"@;
    assert(vtk_text(t) =~= pre + vtk_lists(t) + Seq::empty());
    assert(is_split(vtk_text(t), pre, vtk_lists(t), Seq::empty()));
}

} // verus!
