//! XYZ point cloud: one `x y z` line per vertex.
use vstd::prelude::*;

use super::mesh::{frame, lemma_xyz_lines, points_block, push_points, xyz_lines, MeshText};

verus! {

/// Writes the vertices of meshes as an XYZ point cloud.
pub struct XyzExporter;

/// One `x y z` line per vertex.
pub open spec fn xyz_text(t: MeshText) -> Seq<char> {
    points_block(t.points@, ""@, frame("", " ", " ", "\n"))
}

impl XyzExporter {
    /// The XYZ point cloud of `text`.
    pub fn render(&self, text: &MeshText) -> (s: String)
        ensures
            s@ == xyz_text(*text),
    {
        let mut w = String::new();
        push_points(&mut w, &text.points, "", "", " ", " ", "\n");
        assert(w@ =~= xyz_text(*text));
        w
    }
}

/// Law: an XYZ point cloud is one `x y z` line per point, in order, and
/// nothing else.
pub proof fn xyz_is_one_line_per_point(t: MeshText)
    ensures
        xyz_text(t) == xyz_lines(t.points@),
{
    lemma_xyz_lines(t.points@);
}

} // verus!
