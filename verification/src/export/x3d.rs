//! X3D, XML.
use vstd::prelude::*;

use super::mesh::{
    faces_block, frame, lemma_faces_block_is_join, lemma_points_joined, xyz_words, points_block, push_faces, push_points, MeshText,
};
use crate::text::{int_text, is_split, join_n, lemma_join_agree, push_str};

verus! {

/// Writes meshes as X3D.
pub struct X3dExporter;

/// The X3D scene: one shape with a grey material and an indexed face set;
/// indices (`a b c -1`) and points (`x y z`) each joined by spaces.
pub open spec fn x3d_text(t: MeshText) -> Seq<char> {
    "<?xml version=\"1.0\" encoding=\"UTF-8\"?>\n"@
        + "<X3D version=\"3.3\" profile=\"Immersive\" xmlns:xsd=\"http://www.w3.org/2001/XMLSchema-instance\">\n"@
        + "  <Scene>\n"@ + "    <Shape>\n"@ + "      <Appearance>\n"@
        + "        <Material diffuseColor=\"0.8 0.8 0.8\"/>\n"@ + "      </Appearance>\n"@
        + "      <IndexedFaceSet coordIndex=\""@ + faces_block(
        t.faces@,
        " "@,
        frame("", " ", " ", " -1"),
        0,
    ) + "\">\n"@ + "        <Coordinate point=\""@ + points_block(
        t.points@,
        " "@,
        frame("", " ", " ", ""),
    ) + "\" />\n"@ + "      </IndexedFaceSet>\n"@ + "    </Shape>\n"@ + "  </Scene>\n"@
        + "</X3D>\n"@
}

impl X3dExporter {
    /// The X3D scene for `text`.
    pub fn render(&self, text: &MeshText) -> (s: String)
        ensures
            s@ == x3d_text(*text),
    {
        let mut w = String::new();
        push_str(&mut w, "<?xml version=\"1.0\" encoding=\"UTF-8\"?>\n");
        push_str(
            &mut w,
            "<X3D version=\"3.3\" profile=\"Immersive\" xmlns:xsd=\"http://www.w3.org/2001/XMLSchema-instance\">\n",
        );
        push_str(&mut w, "  <Scene>\n");
        push_str(&mut w, "    <Shape>\n");
        push_str(&mut w, "      <Appearance>\n");
        push_str(&mut w, "        <Material diffuseColor=\"0.8 0.8 0.8\"/>\n");
        push_str(&mut w, "      </Appearance>\n");
        push_str(&mut w, "      <IndexedFaceSet coordIndex=\"");
        push_faces(&mut w, &text.faces, " ", "", " ", " ", " -1", 0);
        push_str(&mut w, "\">\n");
        push_str(&mut w, "        <Coordinate point=\"");
        push_points(&mut w, &text.points, " ", "", " ", " ", "");
        push_str(&mut w, "\" />\n");
        push_str(&mut w, "      </IndexedFaceSet>\n");
        push_str(&mut w, "    </Shape>\n");
        push_str(&mut w, "  </Scene>\n");
        push_str(&mut w, "</X3D>\n");
        assert(w@ =~= x3d_text(*text));
        w
    }
}

/// The index group of one triangle in `coordIndex`: its three indices and
/// `-1`, separated by spaces.
pub open spec fn x3d_index_group(f: [i32; 3]) -> Seq<char> {
    int_text(f[0] as int) + " "@ + int_text(f[1] as int) + " "@ + int_text(f[2] as int) + " -1"@
}

/// The index groups of the triangles, in order, joined by single spaces.
pub open spec fn x3d_coord_index(faces: Seq<[i32; 3]>) -> Seq<char> {
    join_n(faces.len(), |i: int| x3d_index_group(faces[i]), " "@)
}

/// Law: the `coordIndex` attribute of the indexed face set holds the index
/// groups of the triangles, in order, joined by single spaces (so each `-1`
/// but the last is followed by a space and the next triangle's first index).
pub proof fn x3d_groups_are_space_separated(t: MeshText)
    ensures
        exists|pre: Seq<char>, post: Seq<char>|
            #[trigger] is_split(
                x3d_text(t),
                pre,
                "      <IndexedFaceSet coordIndex=\""@ + x3d_coord_index(t.faces@) + "\">\n"@,
                post,
            ),
{
    reveal_strlit("");
    let fr = frame("", " ", " ", " -1");
    lemma_faces_block_is_join(t.faces@, " "@, fr, 0);
    let f = |i: int| super::mesh::face_piece(t.faces@[i], fr, 0);
    let g = |i: int| x3d_index_group(t.faces@[i]);
    assert forall|i: int| 0 <= i < t.faces@.len() implies #[trigger] f(i) == g(i) by {
        assert(f(i) =~= g(i));
    }
    lemma_join_agree(t.faces@.len(), f, g, " "@);
    let pre = "<?xml version=\"1.0\" encoding=\"UTF-8\"?>\n"@
        + "<X3D version=\"3.3\" profile=\"Immersive\" xmlns:xsd=\"http://www.w3.org/2001/XMLSchema-instance\">\n"@
        + "  <Scene>\n"@ + "    <Shape>\n"@ + "      <Appearance>\n"@
        + "        <Material diffuseColor=\"0.8 0.8 0.8\"/>\n"@ + "      </Appearance>\n"@;
    let post = "        <Coordinate point=\""@ + points_block(
        t.points@,
        " "@,
        frame("", " ", " ", ""),
    ) + "\" />\n"@ + "      </IndexedFaceSet>\n"@ + "    </Shape>\n"@ + "  </Scene>\n"@
        + "</X3D>\n"@;
    let mid = x3d_coord_index(t.faces@);
    assert(mid == join_n(t.faces@.len(), g, " "@));
    assert(x3d_text(t) =~= pre + ("      <IndexedFaceSet coordIndex=\""@ + mid + "\">\n"@) + post);
    assert(is_split(x3d_text(t), pre, "      <IndexedFaceSet coordIndex=\""@ + mid + "\">\n"@, post));
}

/// The points as `x y z`, in order, joined by single spaces.
pub open spec fn x3d_point_list(points: Seq<super::mesh::PointText>) -> Seq<char> {
    join_n(points.len(), |i: int| xyz_words(points[i]), " "@)
}

/// Law: the `point` attribute of the coordinates holds the points as
/// `x y z`, in order, joined by single spaces.
pub proof fn x3d_points_are_space_separated(t: MeshText)
    ensures
        exists|pre: Seq<char>, post: Seq<char>|
            #[trigger] is_split(
                x3d_text(t),
                pre,
                "        <Coordinate point=\""@ + x3d_point_list(t.points@) + "\" />\n"@,
                post,
            ),
{
    lemma_points_joined(t.points@, " "@);
    let pre = "<?xml version=\"1.0\" encoding=\"UTF-8\"?>\n"@
        + "<X3D version=\"3.3\" profile=\"Immersive\" xmlns:xsd=\"http://www.w3.org/2001/XMLSchema-instance\">\n"@
        + "  <Scene>\n"@ + "    <Shape>\n"@ + "      <Appearance>\n"@
        + "        <Material diffuseColor=\"0.8 0.8 0.8\"/>\n"@ + "      </Appearance>\n"@
        + "      <IndexedFaceSet coordIndex=\""@ + faces_block(
        t.faces@,
        " "@,
        frame("", " ", " ", " -1"),
        0,
    ) + "\">\n"@;
    let part = "        <Coordinate point=\""@ + x3d_point_list(t.points@) + "\" />\n"@;
    let post = "      </IndexedFaceSet>\n"@ + "    </Shape>\n"@ + "  </Scene>\n"@ + "</X3D>\n"@;
    assert(x3d_text(t) =~= pre + part + post);
    assert(is_split(x3d_text(t), pre, part, post));
}

} // verus!
