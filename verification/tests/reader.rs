use std::io::Write;

use cxbin_converter::cxbin::mesh::CxbinMesh;
use cxbin_converter::cxbin::reader::{
    header_has_magic, parse_cxbin, zlib_decompress, CxbinError, IoFailure,
};

const MAGIC: &[u8; 12] = b"\niwlskdfjad\0";

fn zlib(data: &[u8]) -> Vec<u8> {
    let mut e = flate2::write::ZlibEncoder::new(Vec::new(), flate2::Compression::default());
    e.write_all(data).unwrap();
    e.finish().unwrap()
}

fn le(v: i32) -> [u8; 4] {
    v.to_le_bytes()
}

fn f(x: f32) -> [u8; 4] {
    x.to_le_bytes()
}

/// Geometry block bytes for the given vertices and faces.
fn geometry(vertices: &[[f32; 3]], faces: &[[i32; 3]]) -> Vec<u8> {
    let mut raw = Vec::new();
    for v in vertices {
        for c in v {
            raw.extend_from_slice(&f(*c));
        }
    }
    for t in faces {
        for i in t {
            raw.extend_from_slice(&le(*i));
        }
    }
    raw
}

fn current_file(vertices: &[[f32; 3]], faces: &[[i32; 3]]) -> Vec<u8> {
    let raw = geometry(vertices, faces);
    let c = zlib(&raw);
    let mut file = Vec::new();
    file.extend_from_slice(&le(2));
    file.extend_from_slice(MAGIC);
    file.extend_from_slice(&le((vertices.len() + faces.len()) as i32));
    file.extend_from_slice(&le(vertices.len() as i32));
    file.extend_from_slice(&le(faces.len() as i32));
    file.extend_from_slice(&le(c.len() as i32));
    file.extend_from_slice(&c);
    file
}

fn triangle() -> (Vec<[f32; 3]>, Vec<[i32; 3]>) {
    (
        vec![[0.0, 0.0, 0.0], [1.0, 0.0, 0.0], [0.0, 1.5, -2.0]],
        vec![[0, 1, 2]],
    )
}

fn bits(v: &[[f32; 3]]) -> Vec<[u32; 3]> {
    v.iter().map(|p| [p[0].to_bits(), p[1].to_bits(), p[2].to_bits()]).collect()
}

#[test]
fn reads_geometry_without_materials() {
    let (v, t) = triangle();
    let file = current_file(&v, &t);
    let mesh = parse_cxbin(&file).unwrap();
    assert_eq!(mesh.vertices, bits(&v));
    assert_eq!(mesh.faces, t);
    assert_eq!(mesh.vertex_count(), 3);
    assert_eq!(mesh.face_count(), 1);
    assert!(mesh.materials.is_none());
    assert!(mesh.uvs.is_none());
    assert_eq!(mesh.cxbin_version, None);
    assert_eq!(mesh.uncompressed_bytes, Some(48));
    assert_eq!(mesh.compressed_bytes, Some(file.len() - 32));
}

#[test]
fn other_material_version_is_recorded() {
    let (v, t) = triangle();
    let mut file = current_file(&v, &t);
    file.extend_from_slice(&le(7));
    let mesh = parse_cxbin(&file).unwrap();
    assert_eq!(mesh.cxbin_version, Some(7));
    assert!(mesh.materials.is_none());
}

#[test]
fn partial_version_field_means_no_materials() {
    let (v, t) = triangle();
    let mut file = current_file(&v, &t);
    file.extend_from_slice(&[1, 0]);
    let mesh = parse_cxbin(&file).unwrap();
    assert_eq!(mesh.cxbin_version, None);
}

fn material_block_v1(file: &mut Vec<u8>, raw: &[u8], counts: [i32; 3], sizes: &[i32], name_len: i32, maps: i32) {
    let c = zlib(raw);
    file.extend_from_slice(&le(1));
    file.extend_from_slice(&le(raw.len() as i32));
    file.extend_from_slice(&le(counts[0]));
    file.extend_from_slice(&le(counts[1]));
    file.extend_from_slice(&le(counts[2]));
    file.extend_from_slice(&le(sizes.len() as i32));
    for s in sizes {
        file.extend_from_slice(&le(*s));
    }
    file.extend_from_slice(&le(name_len));
    file.extend_from_slice(&le(maps));
    file.extend_from_slice(&le(c.len() as i32));
    file.extend_from_slice(&c);
}

#[test]
fn reads_material_block_version_1() {
    let (v, t) = triangle();
    let mut file = current_file(&v, &t);
    let mut raw = Vec::new();
    // two uvs
    for x in [0.25f32, 0.5, 0.75, 1.0] {
        raw.extend_from_slice(&f(x));
    }
    // one face uv triple
    for i in [0, 1, 1] {
        raw.extend_from_slice(&le(i));
    }
    // one texture id
    raw.extend_from_slice(&le(9));
    // material blocks: 3 bytes, then an empty one (size 0)
    raw.extend_from_slice(&[7, 8, 9]);
    // name, zero padded
    raw.extend_from_slice(b"wood\0xx");
    // one texture: PNG signature + one byte
    let png = b"\x89PNG\r\n\x1a\nZ";
    raw.extend_from_slice(&le(png.len() as i32));
    raw.extend_from_slice(png);
    // a second texture that claims more bytes than there are
    raw.extend_from_slice(&le(100));
    raw.extend_from_slice(b"abc");
    material_block_v1(&mut file, &raw, [2, 1, 1], &[3, 0], 7, 3);
    let mesh = parse_cxbin(&file).unwrap();
    assert_eq!(mesh.cxbin_version, Some(1));
    assert_eq!(
        mesh.uvs,
        Some(vec![[0.25f32.to_bits(), 0.5f32.to_bits()], [0.75f32.to_bits(), 1.0f32.to_bits()]])
    );
    assert_eq!(mesh.face_uvs, Some(vec![[0, 1, 1]]));
    let mats = mesh.materials.unwrap();
    assert_eq!(mats.texture_ids, Some(vec![9]));
    assert_eq!(mats.material_blocks, vec![vec![7, 8, 9], vec![]]);
    assert_eq!(mats.material_name.as_deref(), Some("wood"));
    assert_eq!(mats.textures.len(), 2);
    assert!(mats.textures[0].is_png);
    assert_eq!(mats.textures[0].data, png.to_vec());
    assert_eq!(mats.textures[0].size_hint, None);
    assert!(!mats.textures[1].is_png);
    assert_eq!(mats.textures[1].data, b"abc".to_vec());
}

#[test]
fn material_count_past_block_end_is_eof() {
    let (v, t) = triangle();
    let mut file = current_file(&v, &t);
    let raw = vec![0u8; 4];
    material_block_v1(&mut file, &raw, [1, 0, 0], &[], 0, 0);
    match parse_cxbin(&file) {
        Err(CxbinError::Eof) => {}
        _ => panic!("expected Eof"),
    }
}

#[test]
fn invalid_utf8_name_is_none() {
    let (v, t) = triangle();
    let mut file = current_file(&v, &t);
    let raw = vec![0xff, 0xfe, 0x00];
    material_block_v1(&mut file, &raw, [0, 0, 0], &[], 3, 0);
    let mesh = parse_cxbin(&file).unwrap();
    let mats = mesh.materials.unwrap();
    assert_eq!(mats.material_name, None);
    assert!(mats.textures.is_empty());
    assert_eq!(mats.texture_ids, None);
}

fn legacy_file(raw: &[u8], counts: [i32; 5], sizes: &[i32], name_len: i32, maps: i32) -> Vec<u8> {
    let c = zlib(raw);
    let mut file = Vec::new();
    file.extend_from_slice(&le(1));
    file.extend_from_slice(MAGIC);
    file.extend_from_slice(&le(raw.len() as i32));
    for n in counts {
        file.extend_from_slice(&le(n));
    }
    file.extend_from_slice(&le(sizes.len() as i32));
    for s in sizes {
        file.extend_from_slice(&le(*s));
    }
    file.extend_from_slice(&le(name_len));
    file.extend_from_slice(&le(maps));
    file.extend_from_slice(&le(c.len() as i32));
    file.extend_from_slice(&c);
    file
}

#[test]
fn reads_legacy_file_and_encodes_rgba_textures() {
    let (v, t) = triangle();
    let mut raw = geometry(&v, &t);
    // texture 1: 1x1 RGBA
    raw.extend_from_slice(&le(1));
    raw.extend_from_slice(&le(1));
    raw.extend_from_slice(&[255, 0, 0, 255]);
    // texture 2: invalid size
    raw.extend_from_slice(&le(0));
    raw.extend_from_slice(&le(5));
    // texture 3: 2x2 but only 4 bytes left
    raw.extend_from_slice(&le(2));
    raw.extend_from_slice(&le(2));
    raw.extend_from_slice(&[1, 2, 3, 4]);
    let file = legacy_file(&raw, [3, 1, 0, 0, 0], &[], 0, 4);
    let mesh = parse_cxbin(&file).unwrap();
    assert_eq!(mesh.cxbin_version, Some(1));
    assert_eq!(mesh.vertices, bits(&v));
    assert_eq!(mesh.faces, t);
    assert_eq!(mesh.compressed_bytes, None);
    assert_eq!(mesh.uncompressed_bytes, None);
    let mats = mesh.materials.unwrap();
    assert_eq!(mats.textures.len(), 3);
    assert!(mats.textures[0].is_png);
    assert!(mats.textures[0].data.starts_with(b"\x89PNG\r\n\x1a\n"));
    assert_eq!(mats.textures[0].size_hint, Some((1, 1)));
    assert!(!mats.textures[1].is_png);
    assert!(mats.textures[1].data.is_empty());
    assert_eq!(mats.textures[1].size_hint, Some((0, 5)));
    assert!(mats.textures[2].is_png);
    assert_eq!(mats.textures[2].data, vec![1, 2, 3, 4]);
    assert_eq!(mats.textures[2].size_hint, Some((2, 2)));
}

#[test]
fn legacy_block_too_short_is_eof() {
    let raw = vec![0u8; 10];
    let file = legacy_file(&raw, [1, 0, 0, 0, 0], &[], 0, 0);
    assert!(matches!(parse_cxbin(&file), Err(CxbinError::Eof)));
}

#[test]
fn truncated_header_is_io_eof() {
    let file = vec![1u8, 0, 0, 0, 10];
    match parse_cxbin(&file) {
        Err(e @ CxbinError::Io(IoFailure::UnexpectedEof)) => {
            assert_eq!(e.message(), "I/O error: failed to fill whole buffer");
        }
        _ => panic!("expected an I/O error"),
    }
}

#[test]
fn wrong_magic_is_rejected() {
    let (v, t) = triangle();
    let mut file = current_file(&v, &t);
    file[5] = b'X';
    let e = parse_cxbin(&file).err().unwrap();
    assert!(matches!(e, CxbinError::InvalidMagic));
    assert_eq!(e.message(), "Invalid magic bytes");
}

#[test]
fn size_mismatch_is_reported() {
    let (v, t) = triangle();
    let mut file = current_file(&v, &t);
    // claim two faces instead of one
    file[24..28].copy_from_slice(&le(2));
    let e = parse_cxbin(&file).err().unwrap();
    match e {
        CxbinError::SizeMismatch { got, expected } => {
            assert_eq!(got, 48);
            assert_eq!(expected, 60);
        }
        _ => panic!("expected a size mismatch"),
    }
    assert_eq!(
        parse_cxbin(&file).err().unwrap().message(),
        "Decompressed size mismatch (got 48, expected 60)"
    );
}

#[test]
fn corrupt_zlib_is_an_io_error() {
    let (v, t) = triangle();
    let mut file = current_file(&v, &t);
    for b in file[32..].iter_mut() {
        *b = 0xAA;
    }
    match parse_cxbin(&file) {
        Err(CxbinError::Io(IoFailure::Other(msg))) => assert!(!msg.is_empty()),
        _ => panic!("expected a zlib error"),
    }
}

#[test]
fn compressed_block_past_file_end_is_io_eof() {
    let (v, t) = triangle();
    let mut file = current_file(&v, &t);
    file.truncate(file.len() - 3);
    assert!(matches!(parse_cxbin(&file), Err(CxbinError::Io(IoFailure::UnexpectedEof))));
}

#[test]
fn zlib_decompress_checks_length() {
    let data = zlib(b"hello");
    assert_eq!(zlib_decompress(&data, Some(5)).ok().unwrap(), b"hello".to_vec());
    assert_eq!(zlib_decompress(&data, None).ok().unwrap(), b"hello".to_vec());
    assert!(matches!(
        zlib_decompress(&data, Some(4)),
        Err(CxbinError::SizeMismatch { got: 5, expected: 4 })
    ));
}

#[test]
fn header_check() {
    let (v, t) = triangle();
    let file = current_file(&v, &t);
    assert_eq!(header_has_magic(&file[..16]).ok(), Some(true));
    let mut bad = file[..16].to_vec();
    bad[4] = 0;
    assert_eq!(header_has_magic(&bad).ok(), Some(false));
    assert!(matches!(header_has_magic(&file[..10]), Err(CxbinError::Io(IoFailure::UnexpectedEof))));
}

#[test]
fn error_messages() {
    assert_eq!(CxbinError::Eof.message(), "Unexpected end of file");
    assert_eq!(CxbinError::Png("bad".to_string()).message(), "PNG encoding failed: bad");
    assert_eq!(
        CxbinError::Io(IoFailure::Other("boom".to_string())).message(),
        "I/O error: boom"
    );
}

#[allow(dead_code)]
fn mesh_of(file: &[u8]) -> CxbinMesh {
    parse_cxbin(file).ok().unwrap()
}
