//! What the exporters share: a mesh whose coordinates are already written out
//! as decimal text, and the pieces that text formats are made of.
//!
//! Coordinates are single-precision floats; their decimal text is made where
//! floats can be formatted, and handed to the exporters here.
use vstd::prelude::*;

use crate::cxbin::mesh::CxbinMesh;
use crate::text::{
    concat_n, int_text, join_n, lemma_concat_n_agree, lemma_join_agree, push_i64, push_str,
};

verus! {

/// The decimal text of one vertex position.
pub struct PointText {
    pub x: String,
    pub y: String,
    pub z: String,
}

/// The decimal text of one texture coordinate.
pub struct UvText {
    pub u: String,
    pub v: String,
}

/// A mesh with its coordinates as text: one point per vertex, the texture
/// coordinates if the mesh has them, and the triangles.
pub struct MeshText {
    pub points: Vec<PointText>,
    pub uvs: Option<Vec<UvText>>,
    pub faces: Vec<[i32; 3]>,
}

/// `t` is the text of `mesh`: one point per vertex, texture coordinates
/// exactly where the mesh has them (one per texture coordinate), and the
/// mesh's triangles.
pub open spec fn text_of(t: MeshText, mesh: CxbinMesh) -> bool {
    &&& t.points@.len() == mesh.vertices@.len()
    &&& t.faces@ == mesh.faces@
    &&& match (t.uvs, mesh.uvs) {
        (Some(a), Some(b)) => a@.len() == b@.len(),
        (None, None) => true,
        _ => false,
    }
}

impl MeshText {
    /// The text of `mesh`, from the decimal text of its vertex positions
    /// (`points[i]` for vertex `i`) and of its texture coordinates, if it has
    /// them; the triangles are the mesh's own.
    pub fn of_mesh(mesh: &CxbinMesh, points: Vec<PointText>, uvs: Option<Vec<UvText>>) -> (t:
        MeshText)
        requires
            points@.len() == mesh.vertices@.len(),
            match (uvs, mesh.uvs) {
                (Some(a), Some(b)) => a@.len() == b@.len(),
                (None, None) => true,
                _ => false,
            },
        ensures
            text_of(t, *mesh),
            t.points@ == points@,
            t.uvs == uvs,
    {
        let mut faces: Vec<[i32; 3]> = Vec::new();
        let mut i: usize = 0;
        while i < mesh.faces.len()
            invariant
                i <= mesh.faces@.len(),
                faces@ == mesh.faces@.take(i as int),
            decreases mesh.faces@.len() - i,
        {
            faces.push(mesh.faces[i]);
            assert(faces@ =~= mesh.faces@.take(i + 1));
            i = i + 1;
        }
        assert(faces@ =~= mesh.faces@);
        MeshText { points, uvs, faces }
    }
}

/// The pieces around the three values of a record: `pre a s1 b s2 c post`.
pub struct Frame {
    pub pre: Seq<char>,
    pub s1: Seq<char>,
    pub s2: Seq<char>,
    pub post: Seq<char>,
}

/// The frame of `pre`, `s1`, `s2`, `post`.
pub open spec fn frame(pre: &str, s1: &str, s2: &str, post: &str) -> Frame {
    Frame { pre: pre@, s1: s1@, s2: s2@, post: post@ }
}

/// `pre x s1 y s2 z post`.
pub open spec fn point_piece(p: PointText, fr: Frame) -> Seq<char> {
    fr.pre + p.x@ + fr.s1 + p.y@ + fr.s2 + p.z@ + fr.post
}

/// `pre a s1 b s2 c post`, each index plus `base`.
pub open spec fn face_piece(f: [i32; 3], fr: Frame, base: int) -> Seq<char> {
    fr.pre + int_text(f[0] + base) + fr.s1 + int_text(f[1] + base) + fr.s2 + int_text(f[2] + base)
        + fr.post
}

/// `between` before every item but the first.
pub open spec fn lead(i: int, between: Seq<char>) -> Seq<char> {
    if i == 0 {
        Seq::empty()
    } else {
        between
    }
}

/// One piece per point, `between` between them.
pub open spec fn points_block(points: Seq<PointText>, between: Seq<char>, fr: Frame) -> Seq<char> {
    concat_n(points.len(), |i: int| lead(i, between) + point_piece(points[i], fr))
}

/// One piece per triangle, `between` between them.
pub open spec fn faces_block(faces: Seq<[i32; 3]>, between: Seq<char>, fr: Frame, base: int) -> Seq<
    char,
> {
    concat_n(faces.len(), |i: int| lead(i, between) + face_piece(faces[i], fr, base))
}

/// The triangle block is the triangles' pieces joined by `between`.
pub proof fn lemma_faces_block_is_join(
    faces: Seq<[i32; 3]>,
    between: Seq<char>,
    fr: Frame,
    base: int,
)
    ensures
        faces_block(faces, between, fr, base) == join_n(
            faces.len(),
            |i: int| face_piece(faces[i], fr, base),
            between,
        ),
{
    let g = |i: int| lead(i, between) + face_piece(faces[i], fr, base);
    let h = |i: int|
        if i == 0 {
            (|j: int| face_piece(faces[j], fr, base))(i)
        } else {
            between + (|j: int| face_piece(faces[j], fr, base))(i)
        };
    assert forall|i: int| 0 <= i < faces.len() implies #[trigger] g(i) == h(i) by {
        if i == 0 {
            assert(g(i) =~= h(i));
        }
    }
    lemma_concat_n_agree(faces.len(), g, h);
}

/// The point block is the points' pieces joined by `between`.
pub proof fn lemma_points_block_is_join(points: Seq<PointText>, between: Seq<char>, fr: Frame)
    ensures
        points_block(points, between, fr) == join_n(
            points.len(),
            |i: int| point_piece(points[i], fr),
            between,
        ),
{
    let g = |i: int| lead(i, between) + point_piece(points[i], fr);
    let h = |i: int|
        if i == 0 {
            (|j: int| point_piece(points[j], fr))(i)
        } else {
            between + (|j: int| point_piece(points[j], fr))(i)
        };
    assert forall|i: int| 0 <= i < points.len() implies #[trigger] g(i) == h(i) by {
        if i == 0 {
            assert(g(i) =~= h(i));
        }
    }
    lemma_concat_n_agree(points.len(), g, h);
}

/// A point as `x y z`.
pub open spec fn xyz_words(p: PointText) -> Seq<char> {
    p.x@ + " "@ + p.y@ + " "@ + p.z@
}

/// Points written as `x y z`, joined by `between`.
pub proof fn lemma_points_joined(points: Seq<PointText>, between: Seq<char>)
    ensures
        points_block(points, between, frame("", " ", " ", "")) == join_n(
            points.len(),
            |i: int| xyz_words(points[i]),
            between,
        ),
{
    reveal_strlit("");
    let fr = frame("", " ", " ", "");
    lemma_points_block_is_join(points, between, fr);
    let f = |i: int| point_piece(points[i], fr);
    let g = |i: int| xyz_words(points[i]);
    assert forall|i: int| 0 <= i < points.len() implies #[trigger] f(i) == g(i) by {
        assert(f(i) =~= g(i));
    }
    lemma_join_agree(points.len(), f, g, between);
}

/// A point as a line: `x y z`.
pub open spec fn xyz_line(p: PointText) -> Seq<char> {
    p.x@ + " "@ + p.y@ + " "@ + p.z@ + "\n"@
}

/// One `x y z` line per point, in order.
pub open spec fn xyz_lines(points: Seq<PointText>) -> Seq<char> {
    concat_n(points.len(), |i: int| xyz_line(points[i]))
}

/// A triangle as a line: `3 a b c`.
pub open spec fn triangle_line(f: [i32; 3]) -> Seq<char> {
    "3 "@ + int_text(f[0] as int) + " "@ + int_text(f[1] as int) + " "@ + int_text(f[2] as int)
        + "\n"@
}

/// One `3 a b c` line per triangle, in order.
pub open spec fn triangle_lines(faces: Seq<[i32; 3]>) -> Seq<char> {
    concat_n(faces.len(), |i: int| triangle_line(faces[i]))
}

/// Points written one per line as `x y z` are the `xyz_lines`.
pub proof fn lemma_xyz_lines(points: Seq<PointText>)
    ensures
        points_block(points, ""@, frame("", " ", " ", "\n")) == xyz_lines(points),
{
    reveal_strlit("");
    let fr = frame("", " ", " ", "\n");
    let f = |i: int| lead(i, ""@) + point_piece(points[i], fr);
    let g = |i: int| xyz_line(points[i]);
    assert forall|i: int| 0 <= i < points.len() implies #[trigger] f(i) == g(i) by {
        assert(f(i) =~= g(i));
    }
    lemma_concat_n_agree(points.len(), f, g);
}

/// Triangles written one per line as `3 a b c` are the `triangle_lines`.
pub proof fn lemma_triangle_lines(faces: Seq<[i32; 3]>)
    ensures
        faces_block(faces, ""@, frame("3 ", " ", " ", "\n"), 0) == triangle_lines(faces),
{
    reveal_strlit("");
    let fr = frame("3 ", " ", " ", "\n");
    let f = |i: int| lead(i, ""@) + face_piece(faces[i], fr, 0);
    let g = |i: int| triangle_line(faces[i]);
    assert forall|i: int| 0 <= i < faces.len() implies #[trigger] f(i) == g(i) by {
        assert(f(i) =~= g(i));
    }
    lemma_concat_n_agree(faces.len(), f, g);
}

/// Every index of every triangle is below `i32::MAX` (so adding one to it
/// stays an `i32`).
pub open spec fn indices_below_max(faces: Seq<[i32; 3]>) -> bool {
    forall|i: int, k: int| 0 <= i < faces.len() && 0 <= k < 3 ==> #[trigger] faces[i][k] < i32::MAX
}

/// Every index of every triangle names one of `vertex_count` vertices.
pub open spec fn indices_in_range(faces: Seq<[i32; 3]>, vertex_count: int) -> bool {
    forall|i: int, k: int|
        0 <= i < faces.len() && 0 <= k < 3 ==> 0 <= #[trigger] faces[i][k] < vertex_count
}

/// Appends `pre x s1 y s2 z post`.
pub fn push_point(out: &mut String, p: &PointText, pre: &str, s1: &str, s2: &str, post: &str)
    ensures
        final(out)@ == old(out)@ + point_piece(*p, frame(pre, s1, s2, post)),
{
    push_str(out, pre);
    push_str(out, p.x.as_str());
    push_str(out, s1);
    push_str(out, p.y.as_str());
    push_str(out, s2);
    push_str(out, p.z.as_str());
    push_str(out, post);
    assert(final(out)@ =~= old(out)@ + point_piece(*p, frame(pre, s1, s2, post)));
}

/// Appends `pre a s1 b s2 c post`, each index plus `base` (0 or 1).
pub fn push_face(
    out: &mut String,
    f: [i32; 3],
    pre: &str,
    s1: &str,
    s2: &str,
    post: &str,
    base: i64,
)
    requires
        0 <= base <= 1,
    ensures
        final(out)@ == old(out)@ + face_piece(f, frame(pre, s1, s2, post), base as int),
{
    push_str(out, pre);
    push_i64(out, f[0] as i64 + base);
    push_str(out, s1);
    push_i64(out, f[1] as i64 + base);
    push_str(out, s2);
    push_i64(out, f[2] as i64 + base);
    push_str(out, post);
    assert(final(out)@ =~= old(out)@ + face_piece(f, frame(pre, s1, s2, post), base as int));
}

/// Appends one piece per point, `between` between them.
pub fn push_points(
    out: &mut String,
    points: &Vec<PointText>,
    between: &str,
    pre: &str,
    s1: &str,
    s2: &str,
    post: &str,
)
    ensures
        final(out)@ == old(out)@ + points_block(points@, between@, frame(pre, s1, s2, post)),
{
    let ghost fr = frame(pre, s1, s2, post);
    let ghost start = out@;
    let mut i: usize = 0;
    while i < points.len()
        invariant
            i <= points@.len(),
            fr == frame(pre, s1, s2, post),
            out@ == start + points_block(points@.take(i as int), between@, fr),
        decreases points@.len() - i,
    {
        let ghost before = out@;
        if i > 0 {
            push_str(out, between);
        }
        push_point(out, &points[i], pre, s1, s2, post);
        proof {
            let g = |j: int| lead(j, between@) + point_piece(points@.take(i as int)[j], fr);
            let h = |j: int| lead(j, between@) + point_piece(points@.take(i + 1)[j], fr);
            lemma_concat_n_agree(i as nat, g, h);
            assert(out@ =~= before + h(i as int));
        }
        i = i + 1;
    }
    assert(points@.take(i as int) =~= points@);
}

/// Appends one piece per triangle, `between` between them, each index plus
/// `base` (0 or 1).
pub fn push_faces(
    out: &mut String,
    faces: &Vec<[i32; 3]>,
    between: &str,
    pre: &str,
    s1: &str,
    s2: &str,
    post: &str,
    base: i64,
)
    requires
        0 <= base <= 1,
    ensures
        final(out)@ == old(out)@ + faces_block(
            faces@,
            between@,
            frame(pre, s1, s2, post),
            base as int,
        ),
{
    let ghost fr = frame(pre, s1, s2, post);
    let ghost start = out@;
    let mut i: usize = 0;
    while i < faces.len()
        invariant
            0 <= base <= 1,
            i <= faces@.len(),
            fr == frame(pre, s1, s2, post),
            out@ == start + faces_block(faces@.take(i as int), between@, fr, base as int),
        decreases faces@.len() - i,
    {
        let ghost before = out@;
        if i > 0 {
            push_str(out, between);
        }
        push_face(out, faces[i], pre, s1, s2, post, base);
        proof {
            let g = |j: int| lead(j, between@) + face_piece(faces@.take(i as int)[j], fr, base as int);
            let h = |j: int| lead(j, between@) + face_piece(faces@.take(i + 1)[j], fr, base as int);
            lemma_concat_n_agree(i as nat, g, h);
            assert(out@ =~= before + h(i as int));
        }
        i = i + 1;
    }
    assert(faces@.take(i as int) =~= faces@);
}


/// `pre u sep v post`.
pub open spec fn uv_piece(t: UvText, pre: Seq<char>, sep: Seq<char>, post: Seq<char>) -> Seq<char> {
    pre + t.u@ + sep + t.v@ + post
}

/// One piece per texture coordinate.
pub open spec fn uvs_block(uvs: Seq<UvText>, pre: Seq<char>, sep: Seq<char>, post: Seq<char>) -> Seq<
    char,
> {
    concat_n(uvs.len(), |i: int| uv_piece(uvs[i], pre, sep, post))
}

/// Appends `pre u sep v post`.
pub fn push_uv(out: &mut String, t: &UvText, pre: &str, sep: &str, post: &str)
    ensures
        final(out)@ == old(out)@ + uv_piece(*t, pre@, sep@, post@),
{
    push_str(out, pre);
    push_str(out, t.u.as_str());
    push_str(out, sep);
    push_str(out, t.v.as_str());
    push_str(out, post);
    assert(final(out)@ =~= old(out)@ + uv_piece(*t, pre@, sep@, post@));
}

/// Appends one piece per texture coordinate.
pub fn push_uvs(out: &mut String, uvs: &Vec<UvText>, pre: &str, sep: &str, post: &str)
    ensures
        final(out)@ == old(out)@ + uvs_block(uvs@, pre@, sep@, post@),
{
    let ghost start = out@;
    let mut i: usize = 0;
    while i < uvs.len()
        invariant
            i <= uvs@.len(),
            out@ == start + uvs_block(uvs@.take(i as int), pre@, sep@, post@),
        decreases uvs@.len() - i,
    {
        let ghost before = out@;
        push_uv(out, &uvs[i], pre, sep, post);
        proof {
            let g = |j: int| uv_piece(uvs@.take(i as int)[j], pre@, sep@, post@);
            let h = |j: int| uv_piece(uvs@.take(i + 1)[j], pre@, sep@, post@);
            lemma_concat_n_agree(i as nat, g, h);
            assert(out@ =~= before + h(i as int));
        }
        i = i + 1;
    }
    assert(uvs@.take(i as int) =~= uvs@);
}

/// A string holding `s`.
pub fn owned(s: &str) -> (r: String)
    ensures
        r@ == s@,
{
    s.to_owned()
}

} // verus!
