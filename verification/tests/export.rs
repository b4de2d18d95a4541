use std::io::Write;

use cxbin_converter::bytes::{decode_faces, decode_vertices};
use cxbin_converter::cxbin::mesh::{CxbinMaterials, CxbinMesh, CxbinTexture};
use cxbin_converter::cxbin::reader::parse_cxbin;
use cxbin_converter::export::amf::AmfExporter;
use cxbin_converter::export::dae::DaeExporter;
use cxbin_converter::export::dxf::DxfExporter;
use cxbin_converter::export::fbx::FbxExporter;
use cxbin_converter::export::glb::{pad_to_4, GlbExporter};
use cxbin_converter::export::line::draw_line;
use cxbin_converter::export::gltf::{write_bin, GltfExporter};
use cxbin_converter::export::mesh::{MeshText, PointText, UvText};
use cxbin_converter::export::msh::MshExporter;
use cxbin_converter::export::obj::ObjExporter;
use cxbin_converter::export::off::OffExporter;
use cxbin_converter::export::ply::PlyExporter;
use cxbin_converter::export::ply_binary::PlyBinaryExporter;
use cxbin_converter::export::stl::StlExporter;
use cxbin_converter::export::threemf::{content_types_xml, model_rels, rels_dot_rels, ThreeMFExporter};
use cxbin_converter::export::usdz::UsdzExporter;
use cxbin_converter::export::vrml::VrmlExporter;
use cxbin_converter::export::vtk::VtkExporter;
use cxbin_converter::export::x3d::X3dExporter;
use cxbin_converter::export::xyz::XyzExporter;
use cxbin_converter::export::{exporter_for, format_for_lowercase, supported_formats, ExportFormat};

fn pt(x: &str, y: &str, z: &str) -> PointText {
    PointText { x: x.to_string(), y: y.to_string(), z: z.to_string() }
}

fn text(uvs: bool) -> MeshText {
    MeshText {
        points: vec![pt("0", "0", "0"), pt("1", "0", "0"), pt("0", "1.5", "-2")],
        uvs: if uvs {
            Some(vec![
                UvText { u: "0".into(), v: "0".into() },
                UvText { u: "1".into(), v: "0".into() },
                UvText { u: "0".into(), v: "1".into() },
            ])
        } else {
            None
        },
        faces: vec![[0, 1, 2]],
    }
}

fn mesh() -> CxbinMesh {
    let v = [[0.0f32, 0.0, 0.0], [1.0, 0.0, 0.0], [0.0, 1.5, -2.0]];
    CxbinMesh {
        vertices: v.iter().map(|p| [p[0].to_bits(), p[1].to_bits(), p[2].to_bits()]).collect(),
        faces: vec![[0, 1, 2]],
        uvs: None,
        face_uvs: None,
        materials: None,
        cxbin_version: None,
        compressed_bytes: None,
        uncompressed_bytes: None,
    }
}

#[test]
fn formats_and_lookup() {
    assert_eq!(
        supported_formats(),
        vec!["stl", "ply", "obj", "off", "3mf", "amf", "vrml", "x3d"]
    );
    assert_eq!(exporter_for("STL"), Some(ExportFormat::Stl));
    assert_eq!(exporter_for("Ply"), Some(ExportFormat::Ply));
    assert_eq!(exporter_for("obj"), Some(ExportFormat::Obj));
    assert_eq!(exporter_for("OFF"), Some(ExportFormat::Off));
    assert_eq!(exporter_for("3mf"), Some(ExportFormat::ThreeMf));
    assert_eq!(exporter_for("3MF"), Some(ExportFormat::ThreeMf));
    assert_eq!(exporter_for("Amf"), Some(ExportFormat::Amf));
    assert_eq!(exporter_for("VRML"), Some(ExportFormat::Vrml));
    assert_eq!(exporter_for("x3D"), Some(ExportFormat::X3d));
    assert_eq!(exporter_for("dae"), None);
    assert_eq!(exporter_for(""), None);
    assert_eq!(format_for_lowercase(&"STL".to_string()), None);
    assert_eq!(format_for_lowercase(&"vrml".to_string()), Some(ExportFormat::Vrml));
    for name in supported_formats() {
        assert!(exporter_for(name).is_some());
    }
}

#[test]
fn supported_names_are_distinct_lower_case() {
    let names = supported_formats();
    for (i, a) in names.iter().enumerate() {
        assert!(a.is_ascii());
        assert_eq!(a.to_ascii_lowercase(), *a);
        for b in &names[i + 1..] {
            assert_ne!(a, b);
        }
    }
}

#[test]
fn letter_case_does_not_matter() {
    for name in ["StL", "PLY", "oBj", "Off", "3Mf", "AMF", "Vrml", "X3D", "Dae", "GLB"] {
        assert_eq!(exporter_for(name), exporter_for(&name.to_lowercase()));
    }
}

#[test]
fn ply_ascii() {
    let s = PlyExporter.render(&text(false));
    assert_eq!(
        s,
        "ply\nformat ascii 1.0\nelement vertex 3\nproperty float x\nproperty float y\nproperty float z\nelement face 1\nproperty list uchar int vertex_indices\nend_header\n0 0 0\n1 0 0\n0 1.5 -2\n3 0 1 2\n"
    );
    let s = PlyExporter.render(&text(true));
    assert!(s.contains("property float s\nproperty float t\nelement face 1"));
    assert!(s.contains("0 1.5 -2 0 1\n"));
}

#[test]
fn ply_ascii_ignores_uvs_of_other_length() {
    let mut t = text(true);
    t.uvs.as_mut().unwrap().pop();
    let s = PlyExporter.render(&t);
    assert!(!s.contains("property float s"));
}

#[test]
fn obj_without_textures() {
    let files = ObjExporter.render(&mesh(), &text(false), "cube");
    assert_eq!(files.obj, "v 0 0 0\nv 1 0 0\nv 0 1.5 -2\nf 1 2 3\n");
    assert!(files.texture.is_none());
    assert!(files.mtl.is_none());
}

#[test]
fn obj_with_uvs_and_texture() {
    let mut m = mesh();
    m.materials = Some(CxbinMaterials {
        material_name: None,
        material_blocks: vec![],
        textures: vec![CxbinTexture { data: vec![1, 2, 3], is_png: false, size_hint: None }],
        texture_ids: None,
    });
    let files = ObjExporter.render(&m, &text(true), "cube");
    assert_eq!(
        files.obj,
        "mtllib cube.mtl\nusemtl material_0\nv 0 0 0\nv 1 0 0\nv 0 1.5 -2\nvt 0 0\nvt 1 0\nvt 0 1\nf 1/1 2/2 3/3\n"
    );
    let (name, data) = files.texture.unwrap();
    assert_eq!(name, "cube_texture.bin");
    assert_eq!(data, vec![1, 2, 3]);
    assert_eq!(
        files.mtl.unwrap(),
        "newmtl material_0\nKa 1.0 1.0 1.0\nKd 1.0 1.0 1.0\nKs 0.0 0.0 0.0\nd 1.0\nillum 1\nmap_Kd cube_texture.bin\n"
    );
}

#[test]
fn off_text() {
    assert_eq!(OffExporter.render(&text(false)), "OFF\n3 1 0\n0 0 0\n1 0 0\n0 1.5 -2\n3 0 1 2\n");
}

#[test]
fn stl_binary() {
    let m = mesh();
    let normals = vec![[1u32, 2, 3]];
    let out = StlExporter.render(&m, &normals);
    assert_eq!(out.len(), 80 + 4 + 50);
    assert!(out[..80].iter().all(|b| *b == 0));
    assert_eq!(&out[80..84], &1u32.to_le_bytes());
    assert_eq!(&out[84..88], &1u32.to_le_bytes());
    assert_eq!(&out[96..100], &0f32.to_le_bytes());
    assert_eq!(&out[108..112], &1.0f32.to_le_bytes());
    assert_eq!(&out[120..124], &0.0f32.to_le_bytes());
    assert_eq!(&out[124..128], &1.5f32.to_le_bytes());
    assert_eq!(&out[128..132], &(-2.0f32).to_le_bytes());
    assert_eq!(&out[132..134], &[0, 0]);
}

#[test]
fn ply_binary() {
    let out = PlyBinaryExporter.render(&mesh());
    let header = "ply\nformat binary_little_endian 1.0\nelement vertex 3\nproperty float x\nproperty float y\nproperty float z\nelement face 1\nproperty list uchar int vertex_indices\nend_header\n";
    assert!(out.starts_with(header.as_bytes()));
    let body = &out[header.len()..];
    assert_eq!(body.len(), 36 + 13);
    assert_eq!(&body[12..16], &1.0f32.to_le_bytes());
    assert_eq!(body[36], 3);
    assert_eq!(&body[41..45], &1i32.to_le_bytes());
}

#[test]
fn amf_text() {
    let s = AmfExporter.render(&text(false));
    assert!(s.starts_with("<?xml version=\"1.0\" encoding=\"UTF-8\"?>\n<amf unit=\"millimeter\" version=\"1.1\">\n"));
    assert!(s.contains("        <vertex><coordinates><x>0</x><y>1.5</y><z>-2</z></coordinates></vertex>\n"));
    assert!(s.contains("        <triangle><v1>0</v1><v2>1</v2><v3>2</v3></triangle>\n"));
    assert!(s.ends_with("      </volume>\n    </mesh>\n  </object>\n</amf>\n"));
}

#[test]
fn vrml_text() {
    let s = VrmlExporter.render(&text(false));
    assert!(s.contains("      point [0 0 0, 1 0 0, 0 1.5 -2      ]\n"));
    assert!(s.contains("    coordIndex [0 1 2 -1    ]\n"));
}

#[test]
fn x3d_text() {
    let s = X3dExporter.render(&text(false));
    assert!(s.contains("      <IndexedFaceSet coordIndex=\"0 1 2 -1\">\n"));
    assert!(s.contains("        <Coordinate point=\"0 0 0 1 0 0 0 1.5 -2\" />\n"));
}

#[test]
fn xyz_text() {
    assert_eq!(XyzExporter.render(&text(false)), "0 0 0\n1 0 0\n0 1.5 -2\n");
}

#[test]
fn vtk_text() {
    let s = VtkExporter.render(&text(false));
    assert_eq!(
        s,
        "# vtk DataFile Version 3.0\nCXBin mesh export\nASCII\nDATASET UNSTRUCTURED_GRID\nPOINTS 3 float\n0 0 0\n1 0 0\n0 1.5 -2\nCELLS 1 4\n3 0 1 2\nCELL_TYPES 1\n5\n"
    );
}

#[test]
fn msh_text() {
    let s = MshExporter.render(&text(false));
    assert_eq!(
        s,
        "$MeshFormat\n2.2 0 8\n$EndMeshFormat\n$Nodes\n3\n1 0 0 0\n2 1 0 0\n3 0 1.5 -2\n$EndNodes\n$Elements\n1\n1 2 2 0 0 1 2 3\n$EndElements\n"
    );
}

#[test]
fn dxf_text() {
    let s = DxfExporter.render(&text(false));
    assert!(s.starts_with("0\nSECTION\n2\nHEADER\n0\nENDSEC\n"));
    assert!(s.contains("0\n3DFACE\n10\n0\n20\n0\n30\n0\n11\n1\n21\n0\n31\n0\n12\n0\n22\n1.5\n32\n-2\n13\n0\n23\n1.5\n33\n-2\n"));
    assert!(s.ends_with("0\nENDSEC\n0\nSECTION\n2\nOBJECTS\n0\nENDSEC\n0\nEOF\n"));
}

#[test]
fn dae_text() {
    let s = DaeExporter.render(&text(false));
    assert!(s.contains("<float_array id=\"mesh0-positions-array\" count=\"9\">0 0 0 1 0 0 0 1.5 -2</float_array>\n"));
    assert!(s.contains("<accessor source=\"#mesh0-positions-array\" count=\"3\" stride=\"3\">"));
    assert!(s.contains("<triangles count=\"1\">"));
    assert!(s.contains("<p>0 1 2</p>"));
    assert!(s.ends_with("</COLLADA>\n"));
}

#[test]
fn fbx_text() {
    let normals = vec![Some(pt("0", "0", "1"))];
    let s = FbxExporter.render(&text(false), &normals);
    assert!(s.starts_with("; FBX 7.5.0 project file\n"));
    assert!(s.contains("Vertices: *9 {\n            a: 0 0 0,1 0 0,0 1.5 -2\n"));
    assert!(s.contains("PolygonVertexIndex: *1 {\n            a: 0,1,2-\n"));
    assert!(s.contains("Normals: *1 {\n                a: 3 0,0,1,0,0,1,0,0,1-\n"));
    let s = FbxExporter.render(&text(false), &vec![None]);
    assert!(s.contains("a: 3 0,0,0,0,0,0,0,0,0-\n"));
}

#[test]
fn usda_text() {
    let s = UsdzExporter.render(&text(false));
    assert!(s.starts_with("#usda 1.0\n(\n"));
    assert!(s.contains("    int[] faceVertexCounts = [3]\n"));
    assert!(s.contains("    int[] faceVertexIndices = [(0, 1, 2)]\n"));
    assert!(s.contains("    point3f[] points = [(0 0 0), (1 0 0), (0 1.5 -2)]\n"));
}

#[test]
fn gltf_files() {
    let m = mesh();
    let files = GltfExporter.render(&m, "cube.bin");
    assert_eq!(files.bin.len(), 48);
    assert!(files.gltf.contains("\"count\": 3, \"type\": \"VEC3\""));
    assert!(files.gltf.contains("\"count\": 3, \"type\": \"SCALAR\""));
    assert!(files.gltf.contains("{\"buffer\": 0, \"byteOffset\": 36, \"byteLength\": 12}"));
    assert!(files.gltf.contains("\"buffers\": [{\"uri\": \"cube.bin\", \"byteLength\": 48}]"));
}

#[test]
fn gltf_buffer_reads_back_through_the_reader() {
    let m = mesh();
    let bin = write_bin(&m);
    assert_eq!(decode_vertices(&bin, 0, 3), m.vertices);
    assert_eq!(decode_faces(&bin, 36, 1), m.faces);
    // Packed as a CXBin geometry block, the buffer gives the mesh back.
    let mut e = flate2::write::ZlibEncoder::new(Vec::new(), flate2::Compression::default());
    e.write_all(&bin).unwrap();
    let c = e.finish().unwrap();
    let mut file = Vec::new();
    file.extend_from_slice(&0i32.to_le_bytes());
    file.extend_from_slice(b"\niwlskdfjad\0");
    file.extend_from_slice(&4i32.to_le_bytes());
    file.extend_from_slice(&3i32.to_le_bytes());
    file.extend_from_slice(&1i32.to_le_bytes());
    file.extend_from_slice(&(c.len() as i32).to_le_bytes());
    file.extend_from_slice(&c);
    let back = parse_cxbin(&file).ok().unwrap();
    assert_eq!(back.vertices, m.vertices);
    assert_eq!(back.faces, m.faces);
}

#[test]
fn glb_layout() {
    let m = mesh();
    assert!(GlbExporter.fits(&m));
    let out = GlbExporter.render(&m);
    assert_eq!(&out[0..4], b"glTF");
    assert_eq!(&out[4..8], &2u32.to_le_bytes());
    assert_eq!(u32::from_le_bytes([out[8], out[9], out[10], out[11]]) as usize, out.len());
    let jl = u32::from_le_bytes([out[12], out[13], out[14], out[15]]) as usize;
    assert_eq!(jl % 4, 0);
    assert_eq!(&out[16..20], b"JSON");
    let json = std::str::from_utf8(&out[20..20 + jl]).unwrap();
    assert!(json.contains("\"buffers\":[{\"byteLength\":48}]"));
    let bl = u32::from_le_bytes([out[20 + jl], out[21 + jl], out[22 + jl], out[23 + jl]]) as usize;
    assert_eq!(bl, 48);
    assert_eq!(&out[24 + jl..28 + jl], b"BIN\0");
}

#[test]
fn padding() {
    assert_eq!(pad_to_4(vec![1]), vec![1, 0, 0, 0]);
    assert_eq!(pad_to_4(vec![1, 2, 3, 4]), vec![1, 2, 3, 4]);
    assert_eq!(pad_to_4(vec![]), Vec::<u8>::new());
    assert_eq!(pad_to_4(vec![9; 6]).len(), 8);
}

#[test]
fn threemf_parts() {
    assert!(content_types_xml().starts_with("<?xml version=\"1.0\" encoding=\"UTF-8\"?>\n<Types"));
    assert!(content_types_xml().contains("<Default Extension=\"png\" ContentType=\"image/png\"/>"));
    assert!(rels_dot_rels().contains("Target=\"/3D/Thumbnails/thumbnail.png\""));
    assert_eq!(
        model_rels(),
        "<?xml version=\"1.0\" encoding=\"UTF-8\"?>\n<Relationships xmlns=\"http://schemas.openxmlformats.org/package/2006/relationships\">\n</Relationships>\n"
    );
    let xml = String::from_utf8(ThreeMFExporter.model_xml(&text(false))).unwrap();
    assert!(xml.starts_with("<?xml version=\"1.0\" encoding=\"UTF-8\"?>"));
    assert!(xml.contains("<model unit=\"millimeter\""));
    assert!(xml.contains("<vertex x=\"0\" y=\"1.5\" z=\"-2\"/>"));
    assert!(xml.contains("<triangle v1=\"0\" v2=\"1\" v3=\"2\"/>"));
    assert!(xml.contains("<item objectid=\"1\"/>"));
    assert!(xml.ends_with("</model>"));
}

#[test]
fn lines_connect_their_end_points() {
    assert_eq!(draw_line(10, 10, (1, 1), (4, 1)), vec![(1, 1), (2, 1), (3, 1), (4, 1)]);
    assert_eq!(draw_line(10, 10, (3, 3), (1, 1)), vec![(3, 3), (2, 2), (1, 1)]);
    assert_eq!(draw_line(10, 10, (5, 5), (5, 5)), vec![(5, 5)]);
    let steep = draw_line(10, 10, (0, 0), (1, 4));
    assert_eq!(steep.first(), Some(&(0, 0)));
    assert_eq!(steep.last(), Some(&(1, 4)));
    assert_eq!(steep.len(), 5);
    for w in steep.windows(2) {
        assert!((w[0].0 as i32 - w[1].0 as i32).abs() <= 1);
        assert!((w[0].1 as i32 - w[1].1 as i32).abs() <= 1);
    }
    // points outside the image are left out
    assert_eq!(draw_line(3, 3, (-2, 1), (2, 1)), vec![(0, 1), (1, 1), (2, 1)]);
    assert_eq!(draw_line(2, 2, (5, 5), (9, 9)), Vec::<(u32, u32)>::new());
}

#[test]
fn ply_binary_vertices_read_back() {
    let m = mesh();
    let out = PlyBinaryExporter.render(&m);
    let header_len = out.windows(11).position(|w| w == b"end_header\n").unwrap() + 11;
    assert_eq!(decode_vertices(&out, header_len, 3), m.vertices);
}

#[test]
fn stl_triangles_read_back() {
    let mut m = mesh();
    m.faces.push([2, 0, 1]);
    let normals = vec![[7u32, 8, 9], [10u32, 11, 12]];
    let out = StlExporter.render(&m, &normals);
    assert_eq!(out.len(), 84 + 50 * 2);
    assert_eq!(u32::from_le_bytes([out[80], out[81], out[82], out[83]]), 2);
    for (i, f) in m.faces.iter().enumerate() {
        let p = 84 + 50 * i;
        assert_eq!(decode_vertices(&out, p, 1), vec![normals[i]]);
        let corners: Vec<[u32; 3]> = f.iter().map(|k| m.vertices[*k as usize]).collect();
        assert_eq!(decode_vertices(&out, p + 12, 3), corners);
    }
}

#[test]
fn glb_header_matches_file() {
    let mut m = mesh();
    m.faces.push([2, 1, 0]);
    let out = GlbExporter.render(&m);
    let total = u32::from_le_bytes([out[8], out[9], out[10], out[11]]) as usize;
    assert_eq!(total, out.len());
    let jl = u32::from_le_bytes([out[12], out[13], out[14], out[15]]) as usize;
    let bl = u32::from_le_bytes([out[20 + jl], out[21 + jl], out[22 + jl], out[23 + jl]]) as usize;
    assert_eq!(28 + jl + bl, out.len());
    assert_eq!((jl % 4, bl % 4), (0, 0));
    assert_eq!(decode_vertices(&out, 28 + jl, 3), m.vertices);
    assert_eq!(decode_faces(&out, 28 + jl + 36, 2), m.faces);
}

#[test]
fn threemf_model_bytes() {
    let xml = String::from_utf8(ThreeMFExporter.model_xml(&text(false))).unwrap();
    let expected = [
        "<?xml version=\"1.0\" encoding=\"UTF-8\"?>\n",
        "<model unit=\"millimeter\" xmlns=\"http://schemas.microsoft.com/3dmanufacturing/2013/01/3dmodel\" xmlns:p=\"http://schemas.microsoft.com/3dmanufacturing/2013/01/3dmodelxml\" xml:lang=\"en-US\">\n",
        "  <resources>\n",
        "    <object id=\"1\" type=\"model\">\n",
        "      <mesh>\n",
        "        <vertices>\n",
        "          <vertex x=\"0\" y=\"0\" z=\"0\"/>\n",
        "          <vertex x=\"1\" y=\"0\" z=\"0\"/>\n",
        "          <vertex x=\"0\" y=\"1.5\" z=\"-2\"/>\n",
        "        </vertices>\n",
        "        <triangles>\n",
        "          <triangle v1=\"0\" v2=\"1\" v3=\"2\"/>\n",
        "        </triangles>\n",
        "      </mesh>\n",
        "    </object>\n",
        "  </resources>\n",
        "  <build>\n",
        "    <item objectid=\"1\"/>\n",
        "  </build>\n",
        "</model>",
    ]
    .concat();
    assert_eq!(xml, expected);
}

#[test]
fn threemf_attribute_values_are_escaped() {
    let mut t = text(false);
    t.points[0].x = "a<b&\"c'>".to_string();
    let xml = String::from_utf8(ThreeMFExporter.model_xml(&t)).unwrap();
    assert!(xml.contains("<vertex x=\"a&lt;b&amp;&quot;c&apos;&gt;\" y=\"0\" z=\"0\"/>"));
}

#[test]
fn mesh_text_of_mesh() {
    let m = mesh();
    let points = vec![pt("0", "0", "0"), pt("1", "0", "0"), pt("0", "1.5", "-2")];
    let t = MeshText::of_mesh(&m, points, None);
    assert_eq!(t.faces, m.faces);
    assert_eq!(t.points.len(), 3);
    assert_eq!(t.points[2].y, "1.5");
    assert!(t.uvs.is_none());
    assert_eq!(OffExporter.render(&t), OffExporter.render(&text(false)));
}
