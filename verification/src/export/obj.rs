//! Wavefront OBJ, with an MTL material file and the first texture.
use vstd::prelude::*;

use super::mesh::{
    face_piece, lead, point_piece, PointText, uv_piece, UvText, faces_block, frame, indices_below_max, owned, points_block, push_faces,
    push_points, push_uvs, uvs_block, MeshText,
};
use crate::cxbin::mesh::{CxbinMesh, TextureModel};
use crate::text::{concat_n, int_text, is_split, lemma_concat_n_agree, push_i64, push_str};

verus! {

/// Writes meshes as OBJ (with an MTL file and a texture file where the mesh
/// has textures).
pub struct ObjExporter;

/// The files of an OBJ export: the OBJ text, the texture file (its file name
/// and bytes) and the MTL text.
pub struct ObjFiles {
    pub obj: String,
    pub texture: Option<(String, Vec<u8>)>,
    pub mtl: Option<String>,
}

/// Whether the text mesh has texture coordinates at all.
pub open spec fn obj_has_uvs(t: MeshText) -> bool {
    t.uvs matches Some(u) && u@.len() > 0
}

/// `f a/a b/b c/c` (one-based) and a newline.
pub open spec fn uv_face_line(f: [i32; 3]) -> Seq<char> {
    "f "@ + int_text(f[0] + 1) + "/"@ + int_text(f[0] + 1) + " "@ + int_text(f[1] + 1) + "/"@
        + int_text(f[1] + 1) + " "@ + int_text(f[2] + 1) + "/"@ + int_text(f[2] + 1) + "\n"@
}

/// The first texture of the mesh, if it has materials with textures.
pub open spec fn first_texture(mesh: CxbinMesh) -> Option<TextureModel> {
    match mesh.materials {
        Some(m) => if m.textures@.len() > 0 {
            Some(m.textures@[0]@)
        } else {
            None
        },
        None => None,
    }
}

/// The name of the texture file: `<stem>_texture.png`, or `.bin` for data
/// that is not PNG.
pub open spec fn texture_file_name(stem: Seq<char>, is_png: bool) -> Seq<char> {
    stem + "_texture."@ + (if is_png {
        "png"@
    } else {
        "bin"@
    })
}

/// The OBJ text.
pub open spec fn obj_text(t: MeshText, has_textures: bool, stem: Seq<char>) -> Seq<char> {
    (if has_textures {
        "mtllib "@ + stem + ".mtl"@ + "\n"@ + "usemtl material_0\n"@
    } else {
        Seq::empty()
    }) + points_block(t.points@, ""@, frame("v ", " ", " ", "\n")) + (if obj_has_uvs(t) {
        uvs_block(t.uvs.unwrap()@, "vt "@, " "@, "\n"@)
    } else {
        Seq::empty()
    }) + (if obj_has_uvs(t) {
        concat_n(t.faces@.len(), |i: int| uv_face_line(t.faces@[i]))
    } else {
        faces_block(t.faces@, ""@, frame("f ", " ", " ", "\n"), 1)
    })
}

/// The MTL text naming the texture file `texture_name`.
pub open spec fn mtl_text(texture_name: Seq<char>) -> Seq<char> {
    "newmtl material_0\n"@ + "Ka 1.0 1.0 1.0\n"@ + "Kd 1.0 1.0 1.0\n"@ + "Ks 0.0 0.0 0.0\n"@
        + "d 1.0\n"@ + "illum 1\n"@ + "map_Kd "@ + texture_name + "\n"@
}

fn push_uv_faces(out: &mut String, faces: &Vec<[i32; 3]>)
    requires
        indices_below_max(faces@),
    ensures
        final(out)@ == old(out)@ + concat_n(faces@.len(), |i: int| uv_face_line(faces@[i])),
{
    let ghost start = out@;
    let mut i: usize = 0;
    while i < faces.len()
        invariant
            i <= faces@.len(),
            indices_below_max(faces@),
            out@ == start + concat_n(i as nat, |j: int| uv_face_line(faces@[j])),
        decreases faces@.len() - i,
    {
        let f = faces[i];
        let ghost before = out@;
        assert(f[0] < i32::MAX && f[1] < i32::MAX && f[2] < i32::MAX) by {
            assert(faces@[i as int][0] < i32::MAX);
            assert(faces@[i as int][1] < i32::MAX);
            assert(faces@[i as int][2] < i32::MAX);
        }
        let a = f[0] as i64 + 1;
        let b = f[1] as i64 + 1;
        let c = f[2] as i64 + 1;
        push_str(out, "f ");
        push_i64(out, a);
        push_str(out, "/");
        push_i64(out, a);
        push_str(out, " ");
        push_i64(out, b);
        push_str(out, "/");
        push_i64(out, b);
        push_str(out, " ");
        push_i64(out, c);
        push_str(out, "/");
        push_i64(out, c);
        push_str(out, "\n");
        assert(out@ =~= before + uv_face_line(faces@[i as int]));
        i = i + 1;
    }
}

impl ObjExporter {
    /// The files of the OBJ export of `mesh`, whose coordinates are written
    /// out in `text`, under the base name `stem`. Indices are written
    /// one-based, so each must be below `i32::MAX`.
    pub fn render(&self, mesh: &CxbinMesh, text: &MeshText, stem: &str) -> (files: ObjFiles)
        requires
            indices_below_max(text.faces@),
        ensures
            files.obj@ == obj_text(*text, first_texture(*mesh) is Some, stem@),
            match first_texture(*mesh) {
                None => files.texture is None && files.mtl is None,
                Some(tex) => {
                    &&& files.texture matches Some((name, data)) && name@ == texture_file_name(
                        stem@,
                        tex.is_png,
                    ) && data@ == tex.data
                    &&& files.mtl matches Some(mtl) && mtl@ == mtl_text(
                        texture_file_name(stem@, tex.is_png),
                    )
                },
            },
    {
        let mut obj = String::new();
        let mut texture: Option<(String, Vec<u8>)> = None;
        let mut mtl: Option<String> = None;
        let tex = match &mesh.materials {
            Some(m) => if m.textures.len() > 0 {
                Some(&m.textures[0])
            } else {
                None
            },
            None => None,
        };
        if let Some(tex) = tex {
            push_str(&mut obj, "mtllib ");
            push_str(&mut obj, stem);
            push_str(&mut obj, ".mtl");
            push_str(&mut obj, "\n");
            push_str(&mut obj, "usemtl material_0\n");
            let mut name = owned(stem);
            push_str(&mut name, "_texture.");
            if tex.is_png {
                push_str(&mut name, "png");
            } else {
                push_str(&mut name, "bin");
            }
            assert(name@ =~= texture_file_name(stem@, tex.is_png));
            let mut m = String::new();
            push_str(&mut m, "newmtl material_0\n");
            push_str(&mut m, "Ka 1.0 1.0 1.0\n");
            push_str(&mut m, "Kd 1.0 1.0 1.0\n");
            push_str(&mut m, "Ks 0.0 0.0 0.0\n");
            push_str(&mut m, "d 1.0\n");
            push_str(&mut m, "illum 1\n");
            push_str(&mut m, "map_Kd ");
            push_str(&mut m, name.as_str());
            push_str(&mut m, "\n");
            assert(m@ =~= mtl_text(name@));
            mtl = Some(m);
            texture = Some((name, tex.data.clone()));
        }
        let ghost head = obj@;
        push_points(&mut obj, &text.points, "", "v ", " ", " ", "\n");
        let has_uvs = match &text.uvs {
            Some(u) => u.len() > 0,
            None => false,
        };
        let ghost mid = obj@;
        if has_uvs {
            match &text.uvs {
                Some(u) => push_uvs(&mut obj, u, "vt ", " ", "\n"),
                None => {},
            }
            push_uv_faces(&mut obj, &text.faces);
        } else {
            push_faces(&mut obj, &text.faces, "", "f ", " ", " ", "\n", 1);
        }
        assert(obj@ =~= obj_text(*text, first_texture(*mesh) is Some, stem@));
        ObjFiles { obj, texture, mtl }
    }
}

/// A `vt u v` line.
pub open spec fn obj_vt_line(uv: UvText) -> Seq<char> {
    "vt "@ + uv.u@ + " "@ + uv.v@ + "\n"@
}

/// One `vt` line per texture coordinate, in order.
pub open spec fn obj_vt_lines(uvs: Seq<UvText>) -> Seq<char> {
    concat_n(uvs.len(), |i: int| obj_vt_line(uvs[i]))
}

/// A one-based index `k + 1` as vertex and texture index: `k+1/k+1`.
pub open spec fn obj_index_pair(k: i32) -> Seq<char> {
    int_text(k + 1) + "/"@ + int_text(k + 1)
}

/// A textured face line `f a/a b/b c/c`, one-based.
pub open spec fn obj_textured_face_line(f: [i32; 3]) -> Seq<char> {
    "f "@ + obj_index_pair(f[0]) + " "@ + obj_index_pair(f[1]) + " "@ + obj_index_pair(f[2])
        + "\n"@
}

/// One textured face line per triangle, in order.
pub open spec fn obj_textured_face_lines(faces: Seq<[i32; 3]>) -> Seq<char> {
    concat_n(faces.len(), |i: int| obj_textured_face_line(faces[i]))
}

/// Law: where the text mesh has any texture coordinates, whatever their
/// number, the OBJ text ends with one `vt u v` line per texture coordinate,
/// in order, followed by one `f a/a b/b c/c` line per triangle.
pub proof fn obj_texture_coordinates_are_written(t: MeshText, has_textures: bool, stem: Seq<char>)
    requires
        t.uvs matches Some(u) && u@.len() > 0,
    ensures
        exists|pre: Seq<char>|
            #[trigger] is_split(
                obj_text(t, has_textures, stem),
                pre,
                obj_vt_lines(t.uvs.unwrap()@),
                obj_textured_face_lines(t.faces@),
            ),
{
    let u = t.uvs.unwrap()@;
    let a = |i: int| uv_piece(u[i], "vt "@, " "@, "\n"@);
    let b = |i: int| obj_vt_line(u[i]);
    assert forall|i: int| 0 <= i < u.len() implies #[trigger] a(i) == b(i) by {}
    lemma_concat_n_agree(u.len(), a, b);
    let c = |i: int| uv_face_line(t.faces@[i]);
    let d = |i: int| obj_textured_face_line(t.faces@[i]);
    assert forall|i: int| 0 <= i < t.faces@.len() implies #[trigger] c(i) == d(i) by {
        assert(c(i) =~= d(i));
    }
    lemma_concat_n_agree(t.faces@.len(), c, d);
    let pre = (if has_textures {
        "mtllib "@ + stem + ".mtl"@ + "\n"@ + "usemtl material_0\n"@
    } else {
        Seq::empty()
    }) + points_block(t.points@, ""@, frame("v ", " ", " ", "\n"));
    assert(obj_text(t, has_textures, stem) =~= pre + obj_vt_lines(u) + obj_textured_face_lines(
        t.faces@,
    ));
    assert(is_split(
        obj_text(t, has_textures, stem),
        pre,
        obj_vt_lines(u),
        obj_textured_face_lines(t.faces@),
    ));
}

/// The material lines: `mtllib <stem>.mtl` and `usemtl material_0` where
/// the mesh has textures, else nothing.
pub open spec fn obj_material_lines(has_textures: bool, stem: Seq<char>) -> Seq<char> {
    if has_textures {
        "mtllib "@ + stem + ".mtl\nusemtl material_0\n"@
    } else {
        Seq::empty()
    }
}

/// A `v x y z` line.
pub open spec fn obj_v_line(p: PointText) -> Seq<char> {
    "v "@ + p.x@ + " "@ + p.y@ + " "@ + p.z@ + "\n"@
}

/// One `v` line per point, in order.
pub open spec fn obj_v_lines(points: Seq<PointText>) -> Seq<char> {
    concat_n(points.len(), |i: int| obj_v_line(points[i]))
}

/// A plain face line `f a b c`, one-based.
pub open spec fn obj_plain_face_line(f: [i32; 3]) -> Seq<char> {
    "f "@ + int_text(f[0] + 1) + " "@ + int_text(f[1] + 1) + " "@ + int_text(f[2] + 1) + "\n"@
}

/// One plain face line per triangle, in order.
pub open spec fn obj_plain_face_lines(faces: Seq<[i32; 3]>) -> Seq<char> {
    concat_n(faces.len(), |i: int| obj_plain_face_line(faces[i]))
}

/// Law: the OBJ text names the material library `<stem>.mtl` and its
/// material exactly where the mesh has textures, then gives one `v x y z`
/// line per point, in order; without texture coordinates it ends with one
/// `f a b c` line per triangle (one-based), in order.
pub proof fn obj_vertices_and_plain_faces(t: MeshText, has_textures: bool, stem: Seq<char>)
    ensures
        exists|post: Seq<char>|
            #[trigger] is_split(
                obj_text(t, has_textures, stem),
                obj_material_lines(has_textures, stem),
                obj_v_lines(t.points@),
                post,
            ),
        !(t.uvs matches Some(u) && u@.len() > 0) ==> obj_text(t, has_textures, stem) == obj_material_lines(has_textures, stem) + obj_v_lines(t.points@) + obj_plain_face_lines(t.faces@),
{
    reveal_strlit("");
    reveal_strlit(".mtl");
    reveal_strlit("\n");
    reveal_strlit("usemtl material_0\n");
    reveal_strlit(".mtl\nusemtl material_0\n");
    assert(".mtl"@ + "\n"@ + "usemtl material_0\n"@ =~= ".mtl\nusemtl material_0\n"@);
    let pf = frame("v ", " ", " ", "\n");
    let a = |i: int| lead(i, ""@) + point_piece(t.points@[i], pf);
    let b = |i: int| obj_v_line(t.points@[i]);
    assert forall|i: int| 0 <= i < t.points@.len() implies #[trigger] a(i) == b(i) by {
        assert(a(i) =~= b(i));
    }
    lemma_concat_n_agree(t.points@.len(), a, b);
    let ff = frame("f ", " ", " ", "\n");
    let c = |i: int| lead(i, ""@) + face_piece(t.faces@[i], ff, 1);
    let d = |i: int| obj_plain_face_line(t.faces@[i]);
    assert forall|i: int| 0 <= i < t.faces@.len() implies #[trigger] c(i) == d(i) by {
        assert(c(i) =~= d(i));
    }
    lemma_concat_n_agree(t.faces@.len(), c, d);
    let head = obj_material_lines(has_textures, stem);
    let post = (if obj_has_uvs(t) {
        uvs_block(t.uvs.unwrap()@, "vt "@, " "@, "\n"@)
    } else {
        Seq::empty()
    }) + (if obj_has_uvs(t) {
        concat_n(t.faces@.len(), |i: int| uv_face_line(t.faces@[i]))
    } else {
        faces_block(t.faces@, ""@, frame("f ", " ", " ", "\n"), 1)
    });
    assert(obj_text(t, has_textures, stem) =~= head + obj_v_lines(t.points@) + post);
    assert(is_split(obj_text(t, has_textures, stem), head, obj_v_lines(t.points@), post));
    if !(t.uvs matches Some(u) && u@.len() > 0) {
        assert(obj_text(t, has_textures, stem) =~= head + obj_v_lines(t.points@)
            + obj_plain_face_lines(t.faces@));
    }
}

} // verus!
