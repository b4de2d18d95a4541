use cxbin_converter::conversion::{
    choose_output_folder, output_name, ConversionResult, OutputFolder, Stats,
};
use cxbin_converter::cxbin::mesh::CxbinMesh;
use cxbin_converter::text::usize_text;

#[test]
fn stats_of_mesh() {
    let m = CxbinMesh {
        vertices: vec![[0, 0, 0]; 4],
        faces: vec![[0, 1, 2], [1, 2, 3]],
        uvs: None,
        face_uvs: None,
        materials: None,
        cxbin_version: None,
        compressed_bytes: Some(10),
        uncompressed_bytes: Some(72),
    };
    let s = Stats::of_mesh(&m);
    assert_eq!((s.vertices, s.faces), (4, 2));
    assert_eq!(s.compressed_bytes, Some(10));
    assert_eq!(s.uncompressed_bytes, Some(72));
}

#[test]
fn failed_load() {
    let r = ConversionResult::load_failed("a.cxbin".into(), "stl".into(), "boom".into());
    assert!(!r.success);
    assert!(r.outputs.is_empty());
    assert_eq!(r.stats.vertices, 0);
    assert_eq!(r.error.as_deref(), Some("boom"));
}

#[test]
fn export_outcomes() {
    let ok = ConversionResult::exported(
        "a.cxbin".into(),
        "stl".into(),
        Stats::empty(),
        Ok(vec!["a.stl".into()]),
    );
    assert!(ok.success);
    assert_eq!(ok.outputs, vec!["a.stl".to_string()]);
    assert!(ok.error.is_none());
    let bad = ConversionResult::exported("a.cxbin".into(), "x".into(), Stats::empty(), Err("no".into()));
    assert!(!bad.success);
    assert!(bad.outputs.is_empty());
    assert_eq!(bad.error.as_deref(), Some("no"));
}

#[test]
fn decimal_text() {
    assert_eq!(usize_text(0), "0");
    assert_eq!(usize_text(10), "10");
    assert_eq!(usize_text(1234567890), "1234567890");
    assert_eq!(usize_text(usize::MAX), usize::MAX.to_string());
}

#[test]
fn output_folder_choice() {
    assert_eq!(choose_output_folder(&Some("out".to_string()), true), OutputFolder::Given);
    assert_eq!(choose_output_folder(&Some("out".to_string()), false), OutputFolder::Given);
    assert_eq!(choose_output_folder(&Some(String::new()), true), OutputFolder::InputParent);
    assert_eq!(choose_output_folder(&None, true), OutputFolder::InputParent);
    assert_eq!(choose_output_folder(&None, false), OutputFolder::Current);
    assert_eq!(choose_output_folder(&Some(String::new()), false), OutputFolder::Current);
}

#[test]
fn output_names() {
    let n = output_name(&Some("model".to_string()), &"stl".to_string());
    assert_eq!(n.subfolder, None);
    assert_eq!(n.file_name, "model.stl");
    let n = output_name(&Some("model".to_string()), &"obj".to_string());
    assert_eq!(n.subfolder, Some("model_obj".to_string()));
    assert_eq!(n.file_name, "model.obj");
    let n = output_name(&None, &"3mf".to_string());
    assert_eq!(n.subfolder, None);
    assert_eq!(n.file_name, "out.3mf");
}
