//! PLY, ASCII flavour.
use vstd::prelude::*;

use super::mesh::{
    lemma_xyz_lines, xyz_lines, face_piece, faces_block, frame, lead, points_block, push_faces, push_points, MeshText, PointText,
    UvText,
};
use crate::text::{
    concat_n, int_text, is_split, lemma_concat_n_agree, nat_text, push_str, push_usize,
};

verus! {

/// Writes meshes as ASCII PLY.
pub struct PlyExporter;

/// The PLY header: the format line, the vertex element (with `s`/`t`
/// properties where the mesh has one texture coordinate per vertex), the face
/// element.
pub open spec fn ply_header(format_line: Seq<char>, nv: nat, nf: nat, has_uvs: bool) -> Seq<
    char,
> {
    "ply\n"@ + format_line + "element vertex "@ + nat_text(nv) + "\n"@ + "property float x\n"@
        + "property float y\n"@ + "property float z\n"@ + (if has_uvs {
        "property float s\n"@ + "property float t\n"@
    } else {
        Seq::empty()
    }) + "element face "@ + nat_text(nf) + "\n"@ + "property list uchar int vertex_indices\n"@
        + "end_header\n"@
}

/// Whether the text mesh has exactly one texture coordinate per vertex.
pub open spec fn has_vertex_uvs(t: MeshText) -> bool {
    t.uvs matches Some(u) && u@.len() == t.points@.len()
}

/// `x y z u v` and a newline.
pub open spec fn uv_vertex_line(p: PointText, uv: UvText) -> Seq<char> {
    p.x@ + " "@ + p.y@ + " "@ + p.z@ + " "@ + uv.u@ + " "@ + uv.v@ + "\n"@
}

/// The vertex lines of an ASCII PLY file.
pub open spec fn ply_vertex_lines(t: MeshText) -> Seq<char> {
    if has_vertex_uvs(t) {
        let uvs = t.uvs.unwrap()@;
        concat_n(t.points@.len(), |i: int| uv_vertex_line(t.points@[i], uvs[i]))
    } else {
        points_block(t.points@, ""@, frame("", " ", " ", "\n"))
    }
}

/// The whole ASCII PLY file.
pub open spec fn ply_text(t: MeshText) -> Seq<char> {
    ply_header("format ascii 1.0\n"@, t.points@.len(), t.faces@.len(), has_vertex_uvs(t))
        + ply_vertex_lines(t) + faces_block(t.faces@, ""@, frame("3 ", " ", " ", "\n"), 0)
}

/// Appends the PLY header.
pub fn push_ply_header(out: &mut String, format_line: &str, nv: usize, nf: usize, has_uvs: bool)
    ensures
        final(out)@ == old(out)@ + ply_header(format_line@, nv as nat, nf as nat, has_uvs),
{
    push_str(out, "ply\n");
    push_str(out, format_line);
    push_str(out, "element vertex ");
    push_usize(out, nv);
    push_str(out, "\n");
    push_str(out, "property float x\n");
    push_str(out, "property float y\n");
    push_str(out, "property float z\n");
    let ghost mid = out@;
    if has_uvs {
        push_str(out, "property float s\n");
        push_str(out, "property float t\n");
    }
    assert(out@ =~= mid + (if has_uvs {
        "property float s\n"@ + "property float t\n"@
    } else {
        Seq::empty()
    }));
    push_str(out, "element face ");
    push_usize(out, nf);
    push_str(out, "\n");
    push_str(out, "property list uchar int vertex_indices\n");
    push_str(out, "end_header\n");
    assert(final(out)@ =~= old(out)@ + ply_header(format_line@, nv as nat, nf as nat, has_uvs));
}

impl PlyExporter {
    /// The ASCII PLY file for `text`.
    pub fn render(&self, text: &MeshText) -> (s: String)
        ensures
            s@ == ply_text(*text),
    {
        let has_uvs = match &text.uvs {
            Some(u) => u.len() == text.points.len(),
            None => false,
        };
        let mut out = String::new();
        push_ply_header(
            &mut out,
            "format ascii 1.0\n",
            text.points.len(),
            text.faces.len(),
            has_uvs,
        );
        let ghost head = out@;
        match &text.uvs {
            Some(uvs) if has_uvs => {
                let mut i: usize = 0;
                while i < text.points.len()
                    invariant
                        i <= text.points@.len(),
                        uvs@.len() == text.points@.len(),
                        out@ == head + concat_n(
                            i as nat,
                            |j: int| uv_vertex_line(text.points@[j], uvs@[j]),
                        ),
                    decreases text.points@.len() - i,
                {
                    let p = &text.points[i];
                    let uv = &uvs[i];
                    let ghost before = out@;
                    push_str(&mut out, p.x.as_str());
                    push_str(&mut out, " ");
                    push_str(&mut out, p.y.as_str());
                    push_str(&mut out, " ");
                    push_str(&mut out, p.z.as_str());
                    push_str(&mut out, " ");
                    push_str(&mut out, uv.u.as_str());
                    push_str(&mut out, " ");
                    push_str(&mut out, uv.v.as_str());
                    push_str(&mut out, "\n");
                    assert(out@ =~= before + uv_vertex_line(text.points@[i as int], uvs@[i as int]));
                    i = i + 1;
                }
            },
            _ => {
                push_points(&mut out, &text.points, "", "", " ", " ", "\n");
            },
        }
        assert(out@ =~= head + ply_vertex_lines(*text));
        push_faces(&mut out, &text.faces, "", "3 ", " ", " ", "\n", 0);
        assert(out@ =~= ply_text(*text));
        out
    }
}

/// The line of one triangle in ASCII PLY: `3 a b c`.
pub open spec fn ply_face_line(f: [i32; 3]) -> Seq<char> {
    "3 "@ + int_text(f[0] as int) + " "@ + int_text(f[1] as int) + " "@ + int_text(f[2] as int)
        + "\n"@
}

/// One line per triangle, in order.
pub open spec fn ply_face_lines(faces: Seq<[i32; 3]>) -> Seq<char> {
    concat_n(faces.len(), |i: int| ply_face_line(faces[i]))
}

/// Law: the header's face count is the number of triangles, and the file
/// ends with exactly one `3 a b c` line per triangle, in order.
pub proof fn ply_face_count_matches_lines(t: MeshText)
    ensures
        exists|pre: Seq<char>, mid: Seq<char>|
            #[trigger] is_split(
                ply_text(t),
                pre,
                "element face "@ + nat_text(t.faces@.len()) + "\n"@,
                mid + ply_face_lines(t.faces@),
            ),
{
    reveal_strlit("");
    let fr = frame("3 ", " ", " ", "\n");
    let f = |i: int| lead(i, ""@) + face_piece(t.faces@[i], fr, 0);
    let g = |i: int| ply_face_line(t.faces@[i]);
    assert forall|i: int| 0 <= i < t.faces@.len() implies #[trigger] f(i) == g(i) by {
        assert(f(i) =~= g(i));
    }
    lemma_concat_n_agree(t.faces@.len(), f, g);
    let pre = "ply\n"@ + "format ascii 1.0\n"@ + "element vertex "@ + nat_text(t.points@.len())
        + "\n"@ + "property float x\n"@ + "property float y\n"@ + "property float z\n"@ + (
    if has_vertex_uvs(t) {
        "property float s\n"@ + "property float t\n"@
    } else {
        Seq::empty()
    });
    let part = "element face "@ + nat_text(t.faces@.len()) + "\n"@;
    let mid = "property list uchar int vertex_indices\n"@ + "end_header\n"@ + ply_vertex_lines(t);
    assert(ply_text(t) =~= pre + part + (mid + ply_face_lines(t.faces@)));
    assert(is_split(ply_text(t), pre, part, mid + ply_face_lines(t.faces@)));
}

/// A vertex line with texture coordinates: `x y z u v`.
pub open spec fn ply_xyzuv_line(p: PointText, uv: UvText) -> Seq<char> {
    p.x@ + " "@ + p.y@ + " "@ + p.z@ + " "@ + uv.u@ + " "@ + uv.v@ + "\n"@
}

/// The vertex lines of a text mesh: `x y z u v` where it has exactly one
/// texture coordinate per point, else `x y z`; one per point, in order.
pub open spec fn ply_point_lines(t: MeshText) -> Seq<char> {
    if t.uvs matches Some(u) && u@.len() == t.points@.len() {
        concat_n(t.points@.len(), |i: int| ply_xyzuv_line(t.points@[i], t.uvs.unwrap()@[i]))
    } else {
        xyz_lines(t.points@)
    }
}

/// Law: an ASCII PLY file begins by announcing as many vertices as there are
/// points, and right after its header come one line per point (with the
/// texture coordinates where there is one per point) and one `3 a b c` line
/// per triangle.
pub proof fn ply_vertex_count_matches_lines(t: MeshText)
    ensures
        exists|mid: Seq<char>|
            #[trigger] is_split(
                ply_text(t),
                "ply\n"@ + "format ascii 1.0\n"@ + "element vertex "@ + nat_text(t.points@.len())
                    + "\n"@,
                mid + "end_header\n"@,
                ply_point_lines(t) + ply_face_lines(t.faces@),
            ),
{
    reveal_strlit("");
    lemma_xyz_lines(t.points@);
    if has_vertex_uvs(t) {
        let u = t.uvs.unwrap()@;
        let a = |i: int| uv_vertex_line(t.points@[i], u[i]);
        let b = |i: int| ply_xyzuv_line(t.points@[i], t.uvs.unwrap()@[i]);
        assert forall|i: int| 0 <= i < t.points@.len() implies #[trigger] a(i) == b(i) by {}
        lemma_concat_n_agree(t.points@.len(), a, b);
    }
    let fr = frame("3 ", " ", " ", "\n");
    let f = |i: int| lead(i, ""@) + face_piece(t.faces@[i], fr, 0);
    let g = |i: int| ply_face_line(t.faces@[i]);
    assert forall|i: int| 0 <= i < t.faces@.len() implies #[trigger] f(i) == g(i) by {
        assert(f(i) =~= g(i));
    }
    lemma_concat_n_agree(t.faces@.len(), f, g);
    let head = "ply\n"@ + "format ascii 1.0\n"@ + "element vertex "@ + nat_text(t.points@.len())
        + "\n"@;
    let mid = "property float x\n"@ + "property float y\n"@ + "property float z\n"@ + (
    if has_vertex_uvs(t) {
        "property float s\n"@ + "property float t\n"@
    } else {
        Seq::empty()
    }) + "element face "@ + nat_text(t.faces@.len()) + "\n"@
        + "property list uchar int vertex_indices\n"@;
    assert(ply_text(t) =~= head + (mid + "end_header\n"@) + (ply_point_lines(t) + ply_face_lines(
        t.faces@,
    )));
    assert(is_split(
        ply_text(t),
        head,
        mid + "end_header\n"@,
        ply_point_lines(t) + ply_face_lines(t.faces@),
    ));
}

} // verus!
