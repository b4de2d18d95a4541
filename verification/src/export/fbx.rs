//! FBX 7.5, ASCII.
use vstd::prelude::*;

use super::mesh::{
    face_piece, faces_block, frame, lead, lemma_faces_block_is_join, lemma_points_block_is_join,
    point_piece, points_block, push_faces, push_points, MeshText, PointText,
};
use crate::text::{
    concat_n, int_text, is_split, join_n, lemma_concat_n_agree, lemma_join_agree, nat_text,
    push_str, push_usize,
};

verus! {

/// Writes meshes as ASCII FBX.
pub struct FbxExporter;

/// The normal of one triangle, as it is listed for each of its three
/// corners: `3 x,y,z,x,y,z,x,y,z-`, or all zero for a degenerate triangle
/// (`None`).
pub open spec fn fbx_normal_piece(n: Option<PointText>) -> Seq<char> {
    match n {
        Some(p) => "3 "@ + p.x@ + ","@ + p.y@ + ","@ + p.z@ + ","@ + p.x@ + ","@ + p.y@ + ","@
            + p.z@ + ","@ + p.x@ + ","@ + p.y@ + ","@ + p.z@ + "-"@,
        None => "3 0,0,0,0,0,0,0,0,0-"@,
    }
}

/// The normals of all triangles, joined by `,`.
pub open spec fn fbx_normals(normals: Seq<Option<PointText>>) -> Seq<char> {
    concat_n(normals.len(), |i: int| lead(i, ","@) + fbx_normal_piece(normals[i]))
}

/// The FBX document: a fixed scene around one geometry whose vertices
/// (`x y z` joined by `,`), polygon indices (`a,b,c-` joined by `,`, the
/// count being the number of triangles) and per-triangle normals are listed.
pub open spec fn fbx_text(t: MeshText, normals: Seq<Option<PointText>>) -> Seq<char> {
    "; FBX 7.5.0 project file\n; Created by CXBin-Converter\n\nFBXHeaderExtension:  {\n    FBXHeaderVersion: 1003\n    FBXVersion: 7500\n    CreationTimeStamp:  {\n        Version: 1000\n        Year: 2024\n        Month: 1\n        Day: 1\n        Hour: 0\n        Minute: 0\n        Second: 0\n        Millisecond: 0\n    }\n    Creator: \"CXBin-Converter\"\n    SceneInfo: \"SceneInfo::GlobalInfo\", \"UserData\" {\n        Type: \"UserData\"\n        Version: 100\n        MetaData:  {\n            Version: 100\n            Title: \"\"\n            Subject: \"\"\n            Author: \"\"\n            Keywords: \"\"\n            Revision: \"\"\n            Comment: \"\"\n        }\n    }\n}\n\nGlobalSettings:  {\n    Version: 1000\n    Properties70:  {\n        P: \"UpAxis\", \"int\", \"Integer\", \"\",1\n        P: \"UpAxisSign\", \"int\", \"Integer\", \"\",1\n        P: \"FrontAxis\", \"int\", \"Integer\", \"\",2\n        P: \"FrontAxisSign\", \"int\", \"Integer\", \"\",1\n        P: \"CoordAxis\", \"int\", \"Integer\", \"\",0\n        P: \"CoordAxisSign\", \"int\", \"Integer\", \"\",1\n        P: \"OriginalUpAxis\", \"int\", \"Integer\", \"\",-1\n        P: \"OriginalUpAxisSign\", \"int\", \"Integer\", \"\",1\n        P: \"UnitScaleFactor\", \"double\", \"Number\", \"\",1\n        P: \"OriginalUnitScaleFactor\", \"double\", \"Number\", \"\",1\n    }\n}\n\nDocuments:  {\n    Count: 1\n    Document: 1000000000, \"\", \"Scene\" {\n        Properties70:  {\n            P: \"SourceObject\", \"object\", \"\", \"\"\n            P: \"ActiveAnimStackName\", \"KString\", \"\", \"\", \"\"\n        }\n        RootNode: 0\n    }\n}\n\nReferences:  {\n}\n\nDefinitions:  {\n    Version: 100\n    Count: 3\n    ObjectType: \"GlobalSettings\" {\n        Count: 1\n    }\n    ObjectType: \"Model\" {\n        Count: 1\n    }\n    ObjectType: \"Geometry\" {\n        Count: 1\n    }\n}\n\nObjects:  {\n    Geometry: 1000000001, \"Geometry::Mesh\", \"Mesh\" {\n        Vertices: *"@ + nat_text(3 * t.points@.len()) + " {\n            a: "@ + points_block(
        t.points@,
        ","@,
        frame("", " ", " ", ""),
    ) + "\n        }\n        PolygonVertexIndex: *"@ + nat_text(t.faces@.len()) + " {\n            a: "@ + faces_block(
        t.faces@,
        ","@,
        frame("", ",", ",", "-"),
        0,
    ) + "\n        }\n        GeometryVersion: 124\n        LayerElementNormal: 0 {\n            Version: 101\n            Name: \"\"\n            MappingInformationType: \"ByPolygon\"\n            ReferenceInformationType: \"Direct\"\n            Normals: *"@ + nat_text(t.faces@.len()) + " {\n                a: "@ + fbx_normals(normals) + "\n            }\n        }\n        LayerElementMaterial: 0 {\n            Version: 101\n            Name: \"\"\n            MappingInformationType: \"AllSame\"\n            ReferenceInformationType: \"IndexToDirect\"\n            Materials: *1 {\n                a: 0\n            }\n        }\n        Layer: 0 {\n            Version: 100\n            LayerElement:  {\n                Type: \"LayerElementNormal\"\n                TypedIndex: 0\n            }\n            LayerElement:  {\n                Type: \"LayerElementMaterial\"\n                TypedIndex: 0\n            }\n        }\n    }\n    Model: 1000000002, \"Model::Mesh\", \"Mesh\" {\n        Version: 232\n        Properties70:  {\n            P: \"Lcl Translation\", \"Lcl Translation\", \"\", \"A\",0,0,0\n            P: \"Lcl Rotation\", \"Lcl Rotation\", \"\", \"A\",0,0,0\n            P: \"Lcl Scaling\", \"Lcl Scaling\", \"\", \"A\",1,1,1\n        }\n        Shading: Y\n        Culling: \"CullingOff\"\n    }\n    Material: 1000000003, \"Material::Default\", \"\" {\n        Version: 102\n        ShadingModel: \"phong\"\n        MultiLayer: 0\n        Properties70:  {\n            P: \"DiffuseColor\", \"Color\", \"\", \"A\",0.13,0.77,0.37\n            P: \"SpecularColor\", \"Color\", \"\", \"A\",1,1,1\n            P: \"SpecularFactor\", \"double\", \"Number\", \"\",0.5\n        }\n    }\n}\n\nConnections:  {\n    C: \"OO\",1000000001,1000000002\n    C: \"OO\",1000000002,0\n    C: \"OO\",1000000003,1000000002\n}\n"@
}

fn push_normal(out: &mut String, n: &Option<PointText>)
    ensures
        final(out)@ == old(out)@ + fbx_normal_piece(*n),
{
    match n {
        Some(p) => {
            push_str(out, "3 ");
            push_str(out, p.x.as_str());
            push_str(out, ",");
            push_str(out, p.y.as_str());
            push_str(out, ",");
            push_str(out, p.z.as_str());
            push_str(out, ",");
            push_str(out, p.x.as_str());
            push_str(out, ",");
            push_str(out, p.y.as_str());
            push_str(out, ",");
            push_str(out, p.z.as_str());
            push_str(out, ",");
            push_str(out, p.x.as_str());
            push_str(out, ",");
            push_str(out, p.y.as_str());
            push_str(out, ",");
            push_str(out, p.z.as_str());
            push_str(out, "-");
        },
        None => push_str(out, "3 0,0,0,0,0,0,0,0,0-"),
    }
    assert(final(out)@ =~= old(out)@ + fbx_normal_piece(*n));
}

fn push_normals(out: &mut String, normals: &Vec<Option<PointText>>)
    ensures
        final(out)@ == old(out)@ + fbx_normals(normals@),
{
    let ghost start = out@;
    let mut i: usize = 0;
    while i < normals.len()
        invariant
            i <= normals@.len(),
            out@ == start + fbx_normals(normals@.take(i as int)),
        decreases normals@.len() - i,
    {
        let ghost before = out@;
        if i > 0 {
            push_str(out, ",");
        }
        push_normal(out, &normals[i]);
        proof {
            let g = |j: int| lead(j, ","@) + fbx_normal_piece(normals@.take(i as int)[j]);
            let h = |j: int| lead(j, ","@) + fbx_normal_piece(normals@.take(i + 1)[j]);
            lemma_concat_n_agree(i as nat, g, h);
            assert(out@ =~= before + h(i as int));
        }
        i = i + 1;
    }
    assert(normals@.take(i as int) =~= normals@);
}

impl FbxExporter {
    /// The FBX document for `text`, with `normals[i]` the normal text of
    /// triangle `i` (`None` where it is degenerate). The vertex count times
    /// three must fit in `usize`.
    pub fn render(&self, text: &MeshText, normals: &Vec<Option<PointText>>) -> (s: String)
        requires
            3 * text.points@.len() <= usize::MAX,
        ensures
            s@ == fbx_text(*text, normals@),
    {
        let mut w = String::new();
        push_str(&mut w, "; FBX 7.5.0 project file\n; Created by CXBin-Converter\n\nFBXHeaderExtension:  {\n    FBXHeaderVersion: 1003\n    FBXVersion: 7500\n    CreationTimeStamp:  {\n        Version: 1000\n        Year: 2024\n        Month: 1\n        Day: 1\n        Hour: 0\n        Minute: 0\n        Second: 0\n        Millisecond: 0\n    }\n    Creator: \"CXBin-Converter\"\n    SceneInfo: \"SceneInfo::GlobalInfo\", \"UserData\" {\n        Type: \"UserData\"\n        Version: 100\n        MetaData:  {\n            Version: 100\n            Title: \"\"\n            Subject: \"\"\n            Author: \"\"\n            Keywords: \"\"\n            Revision: \"\"\n            Comment: \"\"\n        }\n    }\n}\n\nGlobalSettings:  {\n    Version: 1000\n    Properties70:  {\n        P: \"UpAxis\", \"int\", \"Integer\", \"\",1\n        P: \"UpAxisSign\", \"int\", \"Integer\", \"\",1\n        P: \"FrontAxis\", \"int\", \"Integer\", \"\",2\n        P: \"FrontAxisSign\", \"int\", \"Integer\", \"\",1\n        P: \"CoordAxis\", \"int\", \"Integer\", \"\",0\n        P: \"CoordAxisSign\", \"int\", \"Integer\", \"\",1\n        P: \"OriginalUpAxis\", \"int\", \"Integer\", \"\",-1\n        P: \"OriginalUpAxisSign\", \"int\", \"Integer\", \"\",1\n        P: \"UnitScaleFactor\", \"double\", \"Number\", \"\",1\n        P: \"OriginalUnitScaleFactor\", \"double\", \"Number\", \"\",1\n    }\n}\n\nDocuments:  {\n    Count: 1\n    Document: 1000000000, \"\", \"Scene\" {\n        Properties70:  {\n            P: \"SourceObject\", \"object\", \"\", \"\"\n            P: \"ActiveAnimStackName\", \"KString\", \"\", \"\", \"\"\n        }\n        RootNode: 0\n    }\n}\n\nReferences:  {\n}\n\nDefinitions:  {\n    Version: 100\n    Count: 3\n    ObjectType: \"GlobalSettings\" {\n        Count: 1\n    }\n    ObjectType: \"Model\" {\n        Count: 1\n    }\n    ObjectType: \"Geometry\" {\n        Count: 1\n    }\n}\n\nObjects:  {\n    Geometry: 1000000001, \"Geometry::Mesh\", \"Mesh\" {\n        Vertices: *");
        push_usize(&mut w, text.points.len() * 3);
        push_str(&mut w, " {\n            a: ");
        push_points(&mut w, &text.points, ",", "", " ", " ", "");
        push_str(&mut w, "\n        }\n        PolygonVertexIndex: *");
        push_usize(&mut w, text.faces.len());
        push_str(&mut w, " {\n            a: ");
        push_faces(&mut w, &text.faces, ",", "", ",", ",", "-", 0);
        push_str(&mut w, "\n        }\n        GeometryVersion: 124\n        LayerElementNormal: 0 {\n            Version: 101\n            Name: \"\"\n            MappingInformationType: \"ByPolygon\"\n            ReferenceInformationType: \"Direct\"\n            Normals: *");
        push_usize(&mut w, text.faces.len());
        push_str(&mut w, " {\n                a: ");
        push_normals(&mut w, normals);
        push_str(&mut w, "\n            }\n        }\n        LayerElementMaterial: 0 {\n            Version: 101\n            Name: \"\"\n            MappingInformationType: \"AllSame\"\n            ReferenceInformationType: \"IndexToDirect\"\n            Materials: *1 {\n                a: 0\n            }\n        }\n        Layer: 0 {\n            Version: 100\n            LayerElement:  {\n                Type: \"LayerElementNormal\"\n                TypedIndex: 0\n            }\n            LayerElement:  {\n                Type: \"LayerElementMaterial\"\n                TypedIndex: 0\n            }\n        }\n    }\n    Model: 1000000002, \"Model::Mesh\", \"Mesh\" {\n        Version: 232\n        Properties70:  {\n            P: \"Lcl Translation\", \"Lcl Translation\", \"\", \"A\",0,0,0\n            P: \"Lcl Rotation\", \"Lcl Rotation\", \"\", \"A\",0,0,0\n            P: \"Lcl Scaling\", \"Lcl Scaling\", \"\", \"A\",1,1,1\n        }\n        Shading: Y\n        Culling: \"CullingOff\"\n    }\n    Material: 1000000003, \"Material::Default\", \"\" {\n        Version: 102\n        ShadingModel: \"phong\"\n        MultiLayer: 0\n        Properties70:  {\n            P: \"DiffuseColor\", \"Color\", \"\", \"A\",0.13,0.77,0.37\n            P: \"SpecularColor\", \"Color\", \"\", \"A\",1,1,1\n            P: \"SpecularFactor\", \"double\", \"Number\", \"\",0.5\n        }\n    }\n}\n\nConnections:  {\n    C: \"OO\",1000000001,1000000002\n    C: \"OO\",1000000002,0\n    C: \"OO\",1000000003,1000000002\n}\n");
        assert(w@ =~= fbx_text(*text, normals@));
        w
    }
}

/// A triangle's indices as `a,b,c-`.
pub open spec fn fbx_index_words(f: [i32; 3]) -> Seq<char> {
    int_text(f[0] as int) + ","@ + int_text(f[1] as int) + ","@ + int_text(f[2] as int) + "-"@
}

/// A point as `x y z`.
pub open spec fn fbx_point_words(p: PointText) -> Seq<char> {
    p.x@ + " "@ + p.y@ + " "@ + p.z@
}

/// The geometry of the FBX document from the vertex count on: three numbers
/// per point, the points joined by `,`, the number of triangles and their
/// indices as `a,b,c-` joined by `,`, and again the number of triangles for
/// their normals.
pub open spec fn fbx_geometry(t: MeshText, normals: Seq<Option<PointText>>) -> Seq<char> {
    nat_text(3 * t.points@.len()) + " {\n            a: "@ + join_n(
        t.points@.len(),
        |i: int| fbx_point_words(t.points@[i]),
        ","@,
    ) + "\n        }\n        PolygonVertexIndex: *"@ + nat_text(t.faces@.len()) + " {\n            a: "@ + join_n(
        t.faces@.len(),
        |i: int| fbx_index_words(t.faces@[i]),
        ","@,
    ) + "\n        }\n        GeometryVersion: 124\n        LayerElementNormal: 0 {\n            Version: 101\n            Name: \"\"\n            MappingInformationType: \"ByPolygon\"\n            ReferenceInformationType: \"Direct\"\n            Normals: *"@ + nat_text(t.faces@.len()) + " {\n                a: "@
}

/// Law: the FBX geometry counts three numbers per point and lists the points
/// as `x y z`, in order, joined by `,`; it counts the triangles and lists
/// their indices as `a,b,c-`, in order, joined by `,`; and it counts one
/// normal per triangle.
pub proof fn fbx_counts_match_lists(t: MeshText, normals: Seq<Option<PointText>>)
    ensures
        exists|pre: Seq<char>, post: Seq<char>|
            #[trigger] is_split(fbx_text(t, normals), pre, fbx_geometry(t, normals), post),
{
    reveal_strlit("");
    let pf = frame("", " ", " ", "");
    lemma_points_block_is_join(t.points@, ","@, pf);
    let a = |i: int| point_piece(t.points@[i], pf);
    let b = |i: int| fbx_point_words(t.points@[i]);
    assert forall|i: int| 0 <= i < t.points@.len() implies #[trigger] a(i) == b(i) by {
        assert(a(i) =~= b(i));
    }
    lemma_join_agree(t.points@.len(), a, b, ","@);
    let ff = frame("", ",", ",", "-");
    lemma_faces_block_is_join(t.faces@, ","@, ff, 0);
    let c = |i: int| face_piece(t.faces@[i], ff, 0);
    let d = |i: int| fbx_index_words(t.faces@[i]);
    assert forall|i: int| 0 <= i < t.faces@.len() implies #[trigger] c(i) == d(i) by {
        assert(c(i) =~= d(i));
    }
    lemma_join_agree(t.faces@.len(), c, d, ","@);
    let pre = "; FBX 7.5.0 project file\n; Created by CXBin-Converter\n\nFBXHeaderExtension:  {\n    FBXHeaderVersion: 1003\n    FBXVersion: 7500\n    CreationTimeStamp:  {\n        Version: 1000\n        Year: 2024\n        Month: 1\n        Day: 1\n        Hour: 0\n        Minute: 0\n        Second: 0\n        Millisecond: 0\n    }\n    Creator: \"CXBin-Converter\"\n    SceneInfo: \"SceneInfo::GlobalInfo\", \"UserData\" {\n        Type: \"UserData\"\n        Version: 100\n        MetaData:  {\n            Version: 100\n            Title: \"\"\n            Subject: \"\"\n            Author: \"\"\n            Keywords: \"\"\n            Revision: \"\"\n            Comment: \"\"\n        }\n    }\n}\n\nGlobalSettings:  {\n    Version: 1000\n    Properties70:  {\n        P: \"UpAxis\", \"int\", \"Integer\", \"\",1\n        P: \"UpAxisSign\", \"int\", \"Integer\", \"\",1\n        P: \"FrontAxis\", \"int\", \"Integer\", \"\",2\n        P: \"FrontAxisSign\", \"int\", \"Integer\", \"\",1\n        P: \"CoordAxis\", \"int\", \"Integer\", \"\",0\n        P: \"CoordAxisSign\", \"int\", \"Integer\", \"\",1\n        P: \"OriginalUpAxis\", \"int\", \"Integer\", \"\",-1\n        P: \"OriginalUpAxisSign\", \"int\", \"Integer\", \"\",1\n        P: \"UnitScaleFactor\", \"double\", \"Number\", \"\",1\n        P: \"OriginalUnitScaleFactor\", \"double\", \"Number\", \"\",1\n    }\n}\n\nDocuments:  {\n    Count: 1\n    Document: 1000000000, \"\", \"Scene\" {\n        Properties70:  {\n            P: \"SourceObject\", \"object\", \"\", \"\"\n            P: \"ActiveAnimStackName\", \"KString\", \"\", \"\", \"\"\n        }\n        RootNode: 0\n    }\n}\n\nReferences:  {\n}\n\nDefinitions:  {\n    Version: 100\n    Count: 3\n    ObjectType: \"GlobalSettings\" {\n        Count: 1\n    }\n    ObjectType: \"Model\" {\n        Count: 1\n    }\n    ObjectType: \"Geometry\" {\n        Count: 1\n    }\n}\n\nObjects:  {\n    Geometry: 1000000001, \"Geometry::Mesh\", \"Mesh\" {\n        Vertices: *"@;
    let post = fbx_normals(normals) + "\n            }\n        }\n        LayerElementMaterial: 0 {\n            Version: 101\n            Name: \"\"\n            MappingInformationType: \"AllSame\"\n            ReferenceInformationType: \"IndexToDirect\"\n            Materials: *1 {\n                a: 0\n            }\n        }\n        Layer: 0 {\n            Version: 100\n            LayerElement:  {\n                Type: \"LayerElementNormal\"\n                TypedIndex: 0\n            }\n            LayerElement:  {\n                Type: \"LayerElementMaterial\"\n                TypedIndex: 0\n            }\n        }\n    }\n    Model: 1000000002, \"Model::Mesh\", \"Mesh\" {\n        Version: 232\n        Properties70:  {\n            P: \"Lcl Translation\", \"Lcl Translation\", \"\", \"A\",0,0,0\n            P: \"Lcl Rotation\", \"Lcl Rotation\", \"\", \"A\",0,0,0\n            P: \"Lcl Scaling\", \"Lcl Scaling\", \"\", \"A\",1,1,1\n        }\n        Shading: Y\n        Culling: \"CullingOff\"\n    }\n    Material: 1000000003, \"Material::Default\", \"\" {\n        Version: 102\n        ShadingModel: \"phong\"\n        MultiLayer: 0\n        Properties70:  {\n            P: \"DiffuseColor\", \"Color\", \"\", \"A\",0.13,0.77,0.37\n            P: \"SpecularColor\", \"Color\", \"\", \"A\",1,1,1\n            P: \"SpecularFactor\", \"double\", \"Number\", \"\",0.5\n        }\n    }\n}\n\nConnections:  {\n    C: \"OO\",1000000001,1000000002\n    C: \"OO\",1000000002,0\n    C: \"OO\",1000000003,1000000002\n}\n"@;
    assert(fbx_text(t, normals) =~= pre + fbx_geometry(t, normals) + post);
    assert(is_split(fbx_text(t, normals), pre, fbx_geometry(t, normals), post));
}

} // verus!
