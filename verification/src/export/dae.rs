//! COLLADA (DAE), XML.
use vstd::prelude::*;

use super::mesh::{
    face_piece, faces_block, frame, lemma_faces_block_is_join, lemma_points_joined, points_block,
    push_faces, push_points, xyz_words, MeshText,
};
use crate::text::{int_text, is_split, join_n, lemma_join_agree, nat_text, push_str, push_usize};

verus! {

/// Writes meshes as COLLADA.
pub struct DaeExporter;

/// The COLLADA document: one geometry whose positions (`x y z` joined by
/// spaces, counted as three per vertex) and triangle indices (joined by
/// spaces) are listed, and a scene holding it.
pub open spec fn dae_text(t: MeshText) -> Seq<char> {
    "<?xml version=\"1.0\" encoding=\"UTF-8\"?>\n<COLLADA xmlns=\"http://www.collada.org/2005/11/COLLADASchema\" version=\"1.4.1\">\n  <asset>\n    <created>2024-01-01T00:00:00</created>\n    <modified>2024-01-01T00:00:00</modified>\n    <unit name=\"millimeter\" meter=\"0.001\"/>\n    <up_axis>Z_UP</up_axis>\n  </asset>\n  <library_geometries>\n    <geometry id=\"mesh0\" name=\"mesh0\">\n      <mesh>\n        <source id=\"mesh0-positions\">\n          <float_array id=\"mesh0-positions-array\" count=\""@ + nat_text(3 * t.points@.len()) + "\">"@ + points_block(
        t.points@,
        " "@,
        frame("", " ", " ", ""),
    ) + "</float_array>\n          <technique_common>\n            <accessor source=\"#mesh0-positions-array\" count=\""@ + nat_text(t.points@.len()) + "\" stride=\"3\">\n              <param name=\"X\" type=\"float\"/>\n              <param name=\"Y\" type=\"float\"/>\n              <param name=\"Z\" type=\"float\"/>\n            </accessor>\n          </technique_common>\n        </source>\n        <vertices id=\"mesh0-vertices\">\n          <input semantic=\"POSITION\" source=\"#mesh0-positions\"/>\n        </vertices>\n        <triangles count=\""@ + nat_text(t.faces@.len()) + "\">\n          <input semantic=\"VERTEX\" source=\"#mesh0-vertices\" offset=\"0\"/>\n          <p>"@ + faces_block(
        t.faces@,
        " "@,
        frame("", " ", " ", ""),
        0,
    ) + "</p>\n        </triangles>\n      </mesh>\n    </geometry>\n  </library_geometries>\n  <library_visual_scenes>\n    <visual_scene id=\"Scene\" name=\"Scene\">\n      <node id=\"mesh0-node\" name=\"mesh0\" type=\"NODE\">\n        <instance_geometry url=\"#mesh0\"/>\n      </node>\n    </visual_scene>\n  </library_visual_scenes>\n  <scene>\n    <instance_visual_scene url=\"#Scene\"/>\n  </scene>\n</COLLADA>\n"@
}

impl DaeExporter {
    /// The COLLADA document for `text`. The vertex count times three must
    /// fit in `usize`.
    pub fn render(&self, text: &MeshText) -> (s: String)
        requires
            3 * text.points@.len() <= usize::MAX,
        ensures
            s@ == dae_text(*text),
    {
        let mut xml = String::new();
        push_str(&mut xml, "<?xml version=\"1.0\" encoding=\"UTF-8\"?>\n<COLLADA xmlns=\"http://www.collada.org/2005/11/COLLADASchema\" version=\"1.4.1\">\n  <asset>\n    <created>2024-01-01T00:00:00</created>\n    <modified>2024-01-01T00:00:00</modified>\n    <unit name=\"millimeter\" meter=\"0.001\"/>\n    <up_axis>Z_UP</up_axis>\n  </asset>\n  <library_geometries>\n    <geometry id=\"mesh0\" name=\"mesh0\">\n      <mesh>\n        <source id=\"mesh0-positions\">\n          <float_array id=\"mesh0-positions-array\" count=\"");
        push_usize(&mut xml, text.points.len() * 3);
        push_str(&mut xml, "\">");
        push_points(&mut xml, &text.points, " ", "", " ", " ", "");
        push_str(&mut xml, "</float_array>\n          <technique_common>\n            <accessor source=\"#mesh0-positions-array\" count=\"");
        push_usize(&mut xml, text.points.len());
        push_str(&mut xml, "\" stride=\"3\">\n              <param name=\"X\" type=\"float\"/>\n              <param name=\"Y\" type=\"float\"/>\n              <param name=\"Z\" type=\"float\"/>\n            </accessor>\n          </technique_common>\n        </source>\n        <vertices id=\"mesh0-vertices\">\n          <input semantic=\"POSITION\" source=\"#mesh0-positions\"/>\n        </vertices>\n        <triangles count=\"");
        push_usize(&mut xml, text.faces.len());
        push_str(&mut xml, "\">\n          <input semantic=\"VERTEX\" source=\"#mesh0-vertices\" offset=\"0\"/>\n          <p>");
        push_faces(&mut xml, &text.faces, " ", "", " ", " ", "", 0);
        push_str(&mut xml, "</p>\n        </triangles>\n      </mesh>\n    </geometry>\n  </library_geometries>\n  <library_visual_scenes>\n    <visual_scene id=\"Scene\" name=\"Scene\">\n      <node id=\"mesh0-node\" name=\"mesh0\" type=\"NODE\">\n        <instance_geometry url=\"#mesh0\"/>\n      </node>\n    </visual_scene>\n  </library_visual_scenes>\n  <scene>\n    <instance_visual_scene url=\"#Scene\"/>\n  </scene>\n</COLLADA>\n");
        assert(xml@ =~= dae_text(*text));
        xml
    }
}

/// A triangle's indices as `a b c`.
pub open spec fn dae_index_words(f: [i32; 3]) -> Seq<char> {
    int_text(f[0] as int) + " "@ + int_text(f[1] as int) + " "@ + int_text(f[2] as int)
}

/// The geometry of the COLLADA document from the position array's count on:
/// three floats per point, the points as `x y z` joined by spaces, the
/// accessor's count of points, the count of triangles and their indices as
/// `a b c` joined by spaces.
pub open spec fn dae_geometry(t: MeshText) -> Seq<char> {
    nat_text(3 * t.points@.len()) + "\">"@ + join_n(
        t.points@.len(),
        |i: int| xyz_words(t.points@[i]),
        " "@,
    ) + "</float_array>\n          <technique_common>\n            <accessor source=\"#mesh0-positions-array\" count=\""@ + nat_text(t.points@.len()) + "\" stride=\"3\">\n              <param name=\"X\" type=\"float\"/>\n              <param name=\"Y\" type=\"float\"/>\n              <param name=\"Z\" type=\"float\"/>\n            </accessor>\n          </technique_common>\n        </source>\n        <vertices id=\"mesh0-vertices\">\n          <input semantic=\"POSITION\" source=\"#mesh0-positions\"/>\n        </vertices>\n        <triangles count=\""@ + nat_text(t.faces@.len()) + "\">\n          <input semantic=\"VERTEX\" source=\"#mesh0-vertices\" offset=\"0\"/>\n          <p>"@ + join_n(
        t.faces@.len(),
        |i: int| dae_index_words(t.faces@[i]),
        " "@,
    )
}

/// Law: the position array counts three floats per point and holds the
/// points as `x y z`, in order, joined by single spaces; its accessor counts
/// the points; the triangles element counts the triangles and its `<p>` list
/// holds their indices as `a b c`, in order, joined by single spaces.
pub proof fn dae_counts_match_lists(t: MeshText)
    ensures
        exists|pre: Seq<char>, post: Seq<char>|
            #[trigger] is_split(dae_text(t), pre, dae_geometry(t), post),
{
    reveal_strlit("");
    lemma_points_joined(t.points@, " "@);
    let ff = frame("", " ", " ", "");
    lemma_faces_block_is_join(t.faces@, " "@, ff, 0);
    let c = |i: int| face_piece(t.faces@[i], ff, 0);
    let d = |i: int| dae_index_words(t.faces@[i]);
    assert forall|i: int| 0 <= i < t.faces@.len() implies #[trigger] c(i) == d(i) by {
        assert(c(i) =~= d(i));
    }
    lemma_join_agree(t.faces@.len(), c, d, " "@);
    let pre = "<?xml version=\"1.0\" encoding=\"UTF-8\"?>\n<COLLADA xmlns=\"http://www.collada.org/2005/11/COLLADASchema\" version=\"1.4.1\">\n  <asset>\n    <created>2024-01-01T00:00:00</created>\n    <modified>2024-01-01T00:00:00</modified>\n    <unit name=\"millimeter\" meter=\"0.001\"/>\n    <up_axis>Z_UP</up_axis>\n  </asset>\n  <library_geometries>\n    <geometry id=\"mesh0\" name=\"mesh0\">\n      <mesh>\n        <source id=\"mesh0-positions\">\n          <float_array id=\"mesh0-positions-array\" count=\""@;
    let post = "</p>\n        </triangles>\n      </mesh>\n    </geometry>\n  </library_geometries>\n  <library_visual_scenes>\n    <visual_scene id=\"Scene\" name=\"Scene\">\n      <node id=\"mesh0-node\" name=\"mesh0\" type=\"NODE\">\n        <instance_geometry url=\"#mesh0\"/>\n      </node>\n    </visual_scene>\n  </library_visual_scenes>\n  <scene>\n    <instance_visual_scene url=\"#Scene\"/>\n  </scene>\n</COLLADA>\n"@;
    assert(dae_text(t) =~= pre + dae_geometry(t) + post);
    assert(is_split(dae_text(t), pre, dae_geometry(t), post));
}

} // verus!
