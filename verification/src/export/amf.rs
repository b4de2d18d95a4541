//! AMF (Additive Manufacturing File Format), XML.
use vstd::prelude::*;

use super::mesh::{
    face_piece, faces_block, frame, lead, point_piece, points_block, push_faces, push_points,
    MeshText, PointText,
};
use crate::text::{concat_n, int_text, is_split, lemma_concat_n_agree, push_str};

verus! {

/// Writes meshes as AMF.
pub struct AmfExporter;

/// The AMF document: one object, one mesh, one volume of triangles.
pub open spec fn amf_text(t: MeshText) -> Seq<char> {
    "<?xml version=\"1.0\" encoding=\"UTF-8\"?>\n"@ + "<amf unit=\"millimeter\" version=\"1.1\">\n"@
        + "  <object id=\"1\">\n"@ + "    <mesh>\n"@ + "      <vertices>\n"@ + points_block(
        t.points@,
        ""@,
        frame(
            "        <vertex><coordinates><x>",
            "</x><y>",
            "</y><z>",
            "</z></coordinates></vertex>\n",
        ),
    ) + "      </vertices>\n"@ + "      <volume>\n"@ + faces_block(
        t.faces@,
        ""@,
        frame("        <triangle><v1>", "</v1><v2>", "</v2><v3>", "</v3></triangle>\n"),
        0,
    ) + "      </volume>\n"@ + "    </mesh>\n"@ + "  </object>\n"@ + "</amf>\n"@
}

impl AmfExporter {
    /// The AMF document for `text`.
    pub fn render(&self, text: &MeshText) -> (s: String)
        ensures
            s@ == amf_text(*text),
    {
        let mut w = String::new();
        push_str(&mut w, "<?xml version=\"1.0\" encoding=\"UTF-8\"?>\n");
        push_str(&mut w, "<amf unit=\"millimeter\" version=\"1.1\">\n");
        push_str(&mut w, "  <object id=\"1\">\n");
        push_str(&mut w, "    <mesh>\n");
        push_str(&mut w, "      <vertices>\n");
        push_points(
            &mut w,
            &text.points,
            "",
            "        <vertex><coordinates><x>",
            "</x><y>",
            "</y><z>",
            "</z></coordinates></vertex>\n",
        );
        push_str(&mut w, "      </vertices>\n");
        push_str(&mut w, "      <volume>\n");
        push_faces(
            &mut w,
            &text.faces,
            "",
            "        <triangle><v1>",
            "</v1><v2>",
            "</v2><v3>",
            "</v3></triangle>\n",
            0,
        );
        push_str(&mut w, "      </volume>\n");
        push_str(&mut w, "    </mesh>\n");
        push_str(&mut w, "  </object>\n");
        push_str(&mut w, "</amf>\n");
        assert(w@ =~= amf_text(*text));
        w
    }
}

/// The `<vertex>` element of a point.
pub open spec fn amf_vertex_element(p: PointText) -> Seq<char> {
    "        <vertex><coordinates><x>"@ + p.x@ + "</x><y>"@ + p.y@ + "</y><z>"@ + p.z@
        + "</z></coordinates></vertex>\n"@
}

/// The `<triangle>` element of a triangle (zero-based vertex numbers).
pub open spec fn amf_triangle_element(f: [i32; 3]) -> Seq<char> {
    "        <triangle><v1>"@ + int_text(f[0] as int) + "</v1><v2>"@ + int_text(f[1] as int)
        + "</v2><v3>"@ + int_text(f[2] as int) + "</v3></triangle>\n"@
}

/// One `<vertex>` element per point and then, in the volume, one
/// `<triangle>` element per triangle.
pub open spec fn amf_elements(t: MeshText) -> Seq<char> {
    concat_n(t.points@.len(), |i: int| amf_vertex_element(t.points@[i])) + "      </vertices>\n"@
        + "      <volume>\n"@ + concat_n(
        t.faces@.len(),
        |i: int| amf_triangle_element(t.faces@[i]),
    )
}

/// Law: the AMF mesh lists one `<vertex>` element per point, in order,
/// closes the vertices and opens the volume, then lists one `<triangle>`
/// element per triangle, in order.
pub proof fn amf_lists_every_vertex_and_triangle(t: MeshText)
    ensures
        exists|pre: Seq<char>, post: Seq<char>|
            #[trigger] is_split(amf_text(t), pre, amf_elements(t), post),
{
    reveal_strlit("");
    let pf = frame(
        "        <vertex><coordinates><x>",
        "</x><y>",
        "</y><z>",
        "</z></coordinates></vertex>\n",
    );
    let a = |i: int| lead(i, ""@) + point_piece(t.points@[i], pf);
    let b = |i: int| amf_vertex_element(t.points@[i]);
    assert forall|i: int| 0 <= i < t.points@.len() implies #[trigger] a(i) == b(i) by {
        assert(a(i) =~= b(i));
    }
    lemma_concat_n_agree(t.points@.len(), a, b);
    let ff = frame("        <triangle><v1>", "</v1><v2>", "</v2><v3>", "</v3></triangle>\n");
    let c = |i: int| lead(i, ""@) + face_piece(t.faces@[i], ff, 0);
    let d = |i: int| amf_triangle_element(t.faces@[i]);
    assert forall|i: int| 0 <= i < t.faces@.len() implies #[trigger] c(i) == d(i) by {
        assert(c(i) =~= d(i));
    }
    lemma_concat_n_agree(t.faces@.len(), c, d);
    let pre = "<?xml version=\"1.0\" encoding=\"UTF-8\"?>\n"@
        + "<amf unit=\"millimeter\" version=\"1.1\">\n"@ + "  <object id=\"1\">\n"@
        + "    <mesh>\n"@ + "      <vertices>\n"@;
    let post = "      </volume>\n"@ + "    </mesh>\n"@ + "  </object>\n"@ + "</amf>\n"@;
    assert(amf_text(t) =~= pre + amf_elements(t) + post);
    assert(is_split(amf_text(t), pre, amf_elements(t), post));
}

} // verus!
