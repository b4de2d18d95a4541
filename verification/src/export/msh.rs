//! Gmsh MSH 2.2, ASCII.
use vstd::prelude::*;

use super::mesh::{
    face_piece, frame, indices_below_max, point_piece, push_face, push_point, MeshText,
};
use crate::text::{concat_n, int_text, lemma_concat_n_agree, nat_text, push_str, push_usize};
use super::mesh::PointText;

verus! {

/// Writes meshes as Gmsh MSH.
pub struct MshExporter;

/// Node `i`: its one-based number and coordinates.
pub open spec fn msh_node(t: MeshText, i: int) -> Seq<char> {
    nat_text((i + 1) as nat) + point_piece(t.points@[i], frame(" ", " ", " ", "\n"))
}

/// Element `i`: its one-based number, type 2 (triangle), two tags, and the
/// one-based node numbers.
pub open spec fn msh_element(t: MeshText, i: int) -> Seq<char> {
    nat_text((i + 1) as nat) + face_piece(t.faces@[i], frame(" 2 2 0 0 ", " ", " ", "\n"), 1)
}

/// The MSH file: format section, nodes, elements.
pub open spec fn msh_text(t: MeshText) -> Seq<char> {
    "$MeshFormat\n"@ + "2.2 0 8\n"@ + "$EndMeshFormat\n"@ + "$Nodes\n"@ + nat_text(t.points@.len())
        + "\n"@ + concat_n(t.points@.len(), |i: int| msh_node(t, i)) + "$EndNodes\n"@
        + "$Elements\n"@ + nat_text(t.faces@.len()) + "\n"@ + concat_n(
        t.faces@.len(),
        |i: int| msh_element(t, i),
    ) + "$EndElements\n"@
}

impl MshExporter {
    /// The MSH file for `text`. Indices are written one-based, so each must
    /// be below `i32::MAX`.
    pub fn render(&self, text: &MeshText) -> (s: String)
        requires
            indices_below_max(text.faces@),
        ensures
            s@ == msh_text(*text),
    {
        let mut out = String::new();
        push_str(&mut out, "$MeshFormat\n");
        push_str(&mut out, "2.2 0 8\n");
        push_str(&mut out, "$EndMeshFormat\n");
        push_str(&mut out, "$Nodes\n");
        push_usize(&mut out, text.points.len());
        push_str(&mut out, "\n");
        let ghost start = out@;
        let mut i: usize = 0;
        while i < text.points.len()
            invariant
                i <= text.points@.len(),
                out@ == start + concat_n(i as nat, |j: int| msh_node(*text, j)),
            decreases text.points@.len() - i,
        {
            let ghost before = out@;
            push_usize(&mut out, i + 1);
            push_point(&mut out, &text.points[i], " ", " ", " ", "\n");
            assert(out@ =~= before + msh_node(*text, i as int));
            i = i + 1;
        }
        push_str(&mut out, "$EndNodes\n");
        push_str(&mut out, "$Elements\n");
        push_usize(&mut out, text.faces.len());
        push_str(&mut out, "\n");
        let ghost mid = out@;
        let mut i: usize = 0;
        while i < text.faces.len()
            invariant
                i <= text.faces@.len(),
                indices_below_max(text.faces@),
                out@ == mid + concat_n(i as nat, |j: int| msh_element(*text, j)),
            decreases text.faces@.len() - i,
        {
            let ghost before = out@;
            push_usize(&mut out, i + 1);
            push_face(&mut out, text.faces[i], " 2 2 0 0 ", " ", " ", "\n", 1);
            assert(out@ =~= before + msh_element(*text, i as int));
            i = i + 1;
        }
        push_str(&mut out, "$EndElements\n");
        assert(out@ =~= msh_text(*text));
        out
    }
}

/// Node line `k`: the node number `k` and the point's coordinates.
pub open spec fn msh_node_line(k: nat, p: PointText) -> Seq<char> {
    nat_text(k) + " "@ + p.x@ + " "@ + p.y@ + " "@ + p.z@ + "\n"@
}

/// Element line `k`: the element number `k`, type 2 (triangle) with two
/// zero tags, and the triangle's corners as one-based node numbers.
pub open spec fn msh_element_line(k: nat, f: [i32; 3]) -> Seq<char> {
    nat_text(k) + " 2 2 0 0 "@ + int_text(f[0] + 1) + " "@ + int_text(f[1] + 1) + " "@
        + int_text(f[2] + 1) + "\n"@
}

/// Law: the node section gives the number of points and then one line per
/// point, numbered 1, 2, ... in order; the element section gives the number
/// of triangles and then one line per triangle, numbered 1, 2, ..., naming
/// its corners by those one-based node numbers.
pub proof fn msh_counts_match_lines(t: MeshText)
    ensures
        msh_text(t) == "$MeshFormat\n"@ + "2.2 0 8\n"@ + "$EndMeshFormat\n"@ + "$Nodes\n"@
            + nat_text(t.points@.len()) + "\n"@ + concat_n(
            t.points@.len(),
            |i: int| msh_node_line((i + 1) as nat, t.points@[i]),
        ) + "$EndNodes\n"@ + "$Elements\n"@ + nat_text(t.faces@.len()) + "\n"@ + concat_n(
            t.faces@.len(),
            |i: int| msh_element_line((i + 1) as nat, t.faces@[i]),
        ) + "$EndElements\n"@,
{
    let a = |i: int| msh_node(t, i);
    let b = |i: int| msh_node_line((i + 1) as nat, t.points@[i]);
    assert forall|i: int| 0 <= i < t.points@.len() implies #[trigger] a(i) == b(i) by {
        assert(a(i) =~= b(i));
    }
    lemma_concat_n_agree(t.points@.len(), a, b);
    let c = |i: int| msh_element(t, i);
    let d = |i: int| msh_element_line((i + 1) as nat, t.faces@[i]);
    assert forall|i: int| 0 <= i < t.faces@.len() implies #[trigger] c(i) == d(i) by {
        assert(c(i) =~= d(i));
    }
    lemma_concat_n_agree(t.faces@.len(), c, d);
}

} // verus!
