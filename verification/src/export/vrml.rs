//! VRML 2.0, text.
use vstd::prelude::*;

use super::mesh::{
    face_piece, faces_block, frame, lemma_faces_block_is_join, lemma_points_joined, xyz_words, points_block, push_faces,
    push_points, MeshText,
};
use crate::text::{int_text, is_split, join_n, lemma_join_agree, push_str};

verus! {

/// Writes meshes as VRML.
pub struct VrmlExporter;

/// The VRML world: one shape with a grey material and an indexed face set,
/// points and indices each on one line, separated by `, `.
pub open spec fn vrml_text(t: MeshText) -> Seq<char> {
    "#VRML V2.0 utf8\n"@ + "Shape {\n"@ + "  appearance Appearance {\n"@
        + "    material Material { diffuseColor 0.8 0.8 0.8 }\n"@ + "  }\n"@
        + "  geometry IndexedFaceSet {\n"@ + "    solid FALSE\n"@ + "    coord Coordinate {\n"@
        + "      point ["@ + points_block(t.points@, ", "@, frame("", " ", " ", "")) + "      ]\n"@
        + "    }\n"@ + "    coordIndex ["@ + faces_block(
        t.faces@,
        ", "@,
        frame("", " ", " ", " -1"),
        0,
    ) + "    ]\n"@ + "  }\n"@ + "}\n"@
}

impl VrmlExporter {
    /// The VRML world for `text`.
    pub fn render(&self, text: &MeshText) -> (s: String)
        ensures
            s@ == vrml_text(*text),
    {
        let mut w = String::new();
        push_str(&mut w, "#VRML V2.0 utf8\n");
        push_str(&mut w, "Shape {\n");
        push_str(&mut w, "  appearance Appearance {\n");
        push_str(&mut w, "    material Material { diffuseColor 0.8 0.8 0.8 }\n");
        push_str(&mut w, "  }\n");
        push_str(&mut w, "  geometry IndexedFaceSet {\n");
        push_str(&mut w, "    solid FALSE\n");
        push_str(&mut w, "    coord Coordinate {\n");
        push_str(&mut w, "      point [");
        push_points(&mut w, &text.points, ", ", "", " ", " ", "");
        push_str(&mut w, "      ]\n");
        push_str(&mut w, "    }\n");
        push_str(&mut w, "    coordIndex [");
        push_faces(&mut w, &text.faces, ", ", "", " ", " ", " -1", 0);
        push_str(&mut w, "    ]\n");
        push_str(&mut w, "  }\n");
        push_str(&mut w, "}\n");
        assert(w@ =~= vrml_text(*text));
        w
    }
}

/// The index group of one triangle in `coordIndex`: its three indices and
/// `-1`, separated by spaces.
pub open spec fn vrml_index_group(f: [i32; 3]) -> Seq<char> {
    int_text(f[0] as int) + " "@ + int_text(f[1] as int) + " "@ + int_text(f[2] as int) + " -1"@
}

/// The index groups of the triangles, in order, joined by `, `.
pub open spec fn vrml_coord_index(faces: Seq<[i32; 3]>) -> Seq<char> {
    join_n(faces.len(), |i: int| vrml_index_group(faces[i]), ", "@)
}

/// Law: the `coordIndex` list of the indexed face set holds the index groups
/// of the triangles, in order, separated by `, ` (so each `-1` but the last
/// is followed by `, ` and the next triangle's first index).
pub proof fn vrml_groups_are_comma_separated(t: MeshText)
    ensures
        exists|pre: Seq<char>, post: Seq<char>|
            #[trigger] is_split(
                vrml_text(t),
                pre,
                "    coordIndex ["@ + vrml_coord_index(t.faces@) + "    ]\n"@,
                post,
            ),
{
    reveal_strlit("");
    let fr = frame("", " ", " ", " -1");
    lemma_faces_block_is_join(t.faces@, ", "@, fr, 0);
    let f = |i: int| face_piece(t.faces@[i], fr, 0);
    let g = |i: int| vrml_index_group(t.faces@[i]);
    assert forall|i: int| 0 <= i < t.faces@.len() implies #[trigger] f(i) == g(i) by {
        assert(f(i) =~= g(i));
    }
    lemma_join_agree(t.faces@.len(), f, g, ", "@);
    let mid = vrml_coord_index(t.faces@);
    assert(mid == join_n(t.faces@.len(), g, ", "@));
    let pre = "#VRML V2.0 utf8\n"@ + "Shape {\n"@ + "  appearance Appearance {\n"@
        + "    material Material { diffuseColor 0.8 0.8 0.8 }\n"@ + "  }\n"@
        + "  geometry IndexedFaceSet {\n"@ + "    solid FALSE\n"@ + "    coord Coordinate {\n"@
        + "      point ["@ + points_block(t.points@, ", "@, frame("", " ", " ", "")) + "      ]\n"@
        + "    }\n"@;
    let post = "  }\n"@ + "}\n"@;
    let part = "    coordIndex ["@ + mid + "    ]\n"@;
    assert(vrml_text(t) =~= pre + part + post);
    assert(is_split(vrml_text(t), pre, part, post));
}

/// The points as `x y z`, in order, joined by `, `.
pub open spec fn vrml_point_list(points: Seq<super::mesh::PointText>) -> Seq<char> {
    join_n(points.len(), |i: int| xyz_words(points[i]), ", "@)
}

/// Law: the `point` list of the coordinates holds the points as `x y z`, in
/// order, separated by `, `.
pub proof fn vrml_points_are_comma_separated(t: MeshText)
    ensures
        exists|pre: Seq<char>, post: Seq<char>|
            #[trigger] is_split(
                vrml_text(t),
                pre,
                "      point ["@ + vrml_point_list(t.points@) + "      ]\n"@,
                post,
            ),
{
    lemma_points_joined(t.points@, ", "@);
    let pre = "#VRML V2.0 utf8\n"@ + "Shape {\n"@ + "  appearance Appearance {\n"@
        + "    material Material { diffuseColor 0.8 0.8 0.8 }\n"@ + "  }\n"@
        + "  geometry IndexedFaceSet {\n"@ + "    solid FALSE\n"@ + "    coord Coordinate {\n"@;
    let part = "      point ["@ + vrml_point_list(t.points@) + "      ]\n"@;
    let post = "    }\n"@ + "    coordIndex ["@ + faces_block(
        t.faces@,
        ", "@,
        frame("", " ", " ", " -1"),
        0,
    ) + "    ]\n"@ + "  }\n"@ + "}\n"@;
    assert(vrml_text(t) =~= pre + part + post);
    assert(is_split(vrml_text(t), pre, part, post));
}

} // verus!
