//! The CXBin reader.
//!
//! A CXBin file starts with an `i32` header code and twelve magic bytes.
//! With header code 1 (the legacy layout) a table of counts follows, then one
//! zlib block holding geometry and materials together. Otherwise a geometry
//! block follows (counts, then a zlib block of vertices and triangles), then,
//! optionally, a material version and, for version 1, a material block.
//!
//! Counts are stored as `i32` and taken as `usize` (`count as usize`).
use vstd::prelude::*;
use vstd::utf8::{decode_utf8, valid_utf8};

use super::mesh::{
    blocks_view, string_opt_view, textures_view, vec_opt_view, CxbinMaterials, CxbinMesh,
    CxbinTexture, MaterialsModel, MeshModel, TextureModel,
};
use super::outside::{encode_rgba_png, png_encoded, utf8_string, zlib_inflate, zlib_inflated};
use crate::text::{nat_text, push_str, push_usize};
use crate::bytes::{
    decode_face_uvs, decode_faces, decode_texture_ids, decode_uvs, decode_vertices, i32_le,
    ints_at, pairs_at, read_i32_le, triples_at, vertices_at,
};

verus! {

// ---------------------------------------------------------------------------
// Errors
// ---------------------------------------------------------------------------

/// An I/O failure, as far as the reader can tell it apart.
#[derive(Debug)]
pub enum IoFailure {
    /// The input ended before a field or block that the format requires.
    UnexpectedEof,
    /// Another I/O error, by its message (the zlib decoder's errors).
    Other(String),
}

/// Why a CXBin file could not be read.
#[derive(Debug)]
pub enum CxbinError {
    Io(IoFailure),
    /// A count inside a decompressed block reaches past the block's end.
    Eof,
    InvalidMagic,
    SizeMismatch { got: usize, expected: usize },
    /// Encoding a raw RGBA texture as PNG failed; the encoder's message.
    Png(String),
}

/// The kind of a failure, without the outside messages.
pub enum ParseFailure {
    Truncated,
    InvalidMagic,
    Inflate,
    SizeMismatch(usize, usize),
    BlockEof,
    Png,
}

/// The kind of `e`.
pub open spec fn failure_of(e: CxbinError) -> ParseFailure {
    match e {
        CxbinError::Io(IoFailure::UnexpectedEof) => ParseFailure::Truncated,
        CxbinError::Io(IoFailure::Other(_)) => ParseFailure::Inflate,
        CxbinError::Eof => ParseFailure::BlockEof,
        CxbinError::InvalidMagic => ParseFailure::InvalidMagic,
        CxbinError::SizeMismatch { got, expected } => ParseFailure::SizeMismatch(got, expected),
        CxbinError::Png(_) => ParseFailure::Png,
    }
}

/// The text of an I/O failure: std's message for input that ends early, or
/// the outside message.
pub open spec fn io_failure_text(f: IoFailure) -> Seq<char> {
    match f {
        IoFailure::UnexpectedEof => "failed to fill whole buffer"@,
        IoFailure::Other(m) => m@,
    }
}

/// The text of an error.
pub open spec fn error_text(e: CxbinError) -> Seq<char> {
    match e {
        CxbinError::Io(f) => "I/O error: "@ + io_failure_text(f),
        CxbinError::Eof => "Unexpected end of file"@,
        CxbinError::InvalidMagic => "Invalid magic bytes"@,
        CxbinError::SizeMismatch { got, expected } => "Decompressed size mismatch (got "@
            + nat_text(got as nat) + ", expected "@ + nat_text(expected as nat) + ")"@,
        CxbinError::Png(m) => "PNG encoding failed: "@ + m@,
    }
}

impl CxbinError {
    /// The text of the error, for users.
    pub fn message(&self) -> (s: String)
        ensures
            s@ == error_text(*self),
    {
        let mut s = String::new();
        match self {
            CxbinError::Io(f) => {
                push_str(&mut s, "I/O error: ");
                match f {
                    IoFailure::UnexpectedEof => push_str(&mut s, "failed to fill whole buffer"),
                    IoFailure::Other(m) => push_str(&mut s, m.as_str()),
                }
            },
            CxbinError::Eof => push_str(&mut s, "Unexpected end of file"),
            CxbinError::InvalidMagic => push_str(&mut s, "Invalid magic bytes"),
            CxbinError::SizeMismatch { got, expected } => {
                push_str(&mut s, "Decompressed size mismatch (got ");
                push_usize(&mut s, *got);
                push_str(&mut s, ", expected ");
                push_usize(&mut s, *expected);
                push_str(&mut s, ")");
            },
            CxbinError::Png(m) => {
                push_str(&mut s, "PNG encoding failed: ");
                push_str(&mut s, m.as_str());
            },
        }
        assert(s@ =~= error_text(*self));
        s
    }
}

// ---------------------------------------------------------------------------
// The format, as spec functions
// ---------------------------------------------------------------------------

/// The twelve magic bytes `"\niwlskdfjad\0"` that follow the header code.
pub open spec fn cxbin_magic() -> Seq<u8> {
    seq![10u8, 105u8, 119u8, 108u8, 115u8, 107u8, 100u8, 102u8, 106u8, 97u8, 100u8, 0u8]
}

/// The eight bytes that open every PNG file.
pub open spec fn png_signature() -> Seq<u8> {
    seq![137u8, 80u8, 78u8, 71u8, 13u8, 10u8, 26u8, 10u8]
}

/// `b` begins with the PNG signature.
pub open spec fn starts_with_png(b: Seq<u8>) -> bool {
    b.len() >= 8 && b.subrange(0, 8) == png_signature()
}

/// A stored `i32` count taken as `usize`, as a number.
pub open spec fn count_at(b: Seq<u8>, off: int) -> int {
    (i32_le(b, off) as usize) as int
}

/// The smaller of `a` and `b`.
pub open spec fn min(a: int, b: int) -> int {
    if a <= b {
        a
    } else {
        b
    }
}

/// `n` bytes are left in `raw` from `p`.
pub open spec fn fits(raw: Seq<u8>, p: int, n: int) -> bool {
    p + n <= raw.len()
}

/// The material blocks of `sizes`, taken one after the other from `p`
/// (a size that is not positive gives an empty block); `None` where one
/// reaches past the end. With the position after the last.
pub open spec fn material_blocks_spec(raw: Seq<u8>, sizes: Seq<i32>, p: int) -> Option<
    (Seq<Seq<u8>>, int),
>
    decreases sizes.len(),
{
    if sizes.len() == 0 {
        Some((seq![], p))
    } else {
        match material_blocks_spec(raw, sizes.drop_last(), p) {
            None => None,
            Some((blocks, q)) => {
                let s = (sizes.last() as usize) as int;
                if s > 0 {
                    if fits(raw, q, s) {
                        Some((blocks.push(raw.subrange(q, q + s)), q + s))
                    } else {
                        None
                    }
                } else {
                    Some((blocks.push(seq![]), q))
                }
            },
        }
    }
}

/// The material name held in `name_bytes`: the bytes before the first zero
/// byte, as UTF-8; `None` where they are not valid UTF-8.
pub open spec fn material_name_spec(name_bytes: Seq<u8>) -> Option<Seq<char>> {
    let end = match name_bytes.index_of_first(0u8) {
        Some(i) => i,
        None => name_bytes.len() as int,
    };
    let text = name_bytes.subrange(0, end);
    if valid_utf8(text) {
        Some(decode_utf8(text))
    } else {
        None
    }
}

/// What the two material-block layouts share: texture coordinates, texture
/// triangles, texture ids, material blocks and name, read from `p`.
pub struct SectionModel {
    pub uvs: Option<Seq<[u32; 2]>>,
    pub face_uvs: Option<Seq<[i32; 3]>>,
    pub texture_ids: Option<Seq<i32>>,
    pub material_blocks: Seq<Seq<u8>>,
    pub material_name: Option<Seq<char>>,
    /// Where the textures start (one past the end of `raw` is possible).
    pub next: int,
}

/// `Some(v)` where `cond` holds, else `None`.
pub open spec fn some_if<T>(cond: bool, v: T) -> Option<T> {
    if cond {
        Some(v)
    } else {
        None
    }
}

/// The optional sections of a current-format geometry block that follow the
/// triangles, starting at `p`: texture coordinates, per-face texture indices,
/// texture ids and the material name and blocks. `None` where one of them
/// runs past the end of `raw`.
pub open spec fn section_spec(
    raw: Seq<u8>,
    p: int,
    uv_num: int,
    face_uv_num: int,
    texture_id_num: int,
    sizes: Seq<i32>,
    mtl_name_len: int,
) -> Option<SectionModel> {
    let p1 = p + 8 * uv_num;
    let p2 = p1 + 12 * face_uv_num;
    let p3 = p2 + 4 * texture_id_num;
    if !fits(raw, p, 8 * uv_num) || !fits(raw, p1, 12 * face_uv_num) || !fits(
        raw,
        p2,
        4 * texture_id_num,
    ) {
        None
    } else {
        match material_blocks_spec(raw, sizes, p3) {
            None => None,
            Some((blocks, p4)) => {
                if mtl_name_len > 1 && !fits(raw, p4, mtl_name_len) {
                    None
                } else {
                    Some(
                        SectionModel {
                            uvs: some_if(uv_num > 0, pairs_at(raw, p, uv_num as nat)),
                            face_uvs: some_if(
                                face_uv_num > 0,
                                triples_at(raw, p1, face_uv_num as nat),
                            ),
                            texture_ids: some_if(
                                texture_id_num > 0,
                                ints_at(raw, p2, texture_id_num as nat),
                            ),
                            material_blocks: blocks,
                            material_name: if mtl_name_len > 1 {
                                material_name_spec(raw.subrange(p4, p4 + mtl_name_len))
                            } else {
                                None
                            },
                            next: p4 + mtl_name_len,
                        },
                    )
                }
            },
        }
    }
}

/// Textures of the current layout: each is an `i32` byte count and that many
/// bytes (cut short at the end of `raw`). Reading stops where fewer than four
/// bytes are left.
pub open spec fn textures_new_spec(raw: Seq<u8>, n: nat, p: int) -> (Seq<TextureModel>, int)
    decreases n,
{
    if n == 0 {
        (seq![], p)
    } else {
        let (ts, q) = textures_new_spec(raw, (n - 1) as nat, p);
        if q + 4 > raw.len() {
            (ts, q)
        } else {
            let size = count_at(raw, q);
            let end = min(q + 4 + size, raw.len() as int);
            let data = raw.subrange(q + 4, end);
            (ts.push(TextureModel { data, is_png: starts_with_png(data), size_hint: None }), end)
        }
    }
}

/// Textures of the legacy layout: each is an `i32` width and height and, where
/// both are positive, `4 * width * height` bytes of RGBA pixels (cut short at
/// the end of `raw`). Complete pixel data is stored as PNG. Reading stops
/// where fewer than eight bytes are left; `Err` where PNG encoding fails.
pub open spec fn textures_old_spec(raw: Seq<u8>, n: nat, p: int) -> Result<
    (Seq<TextureModel>, int),
    (),
>
    decreases n,
{
    if n == 0 {
        Ok((seq![], p))
    } else {
        match textures_old_spec(raw, (n - 1) as nat, p) {
            Err(()) => Err(()),
            Ok((ts, q)) => {
                if q + 8 > raw.len() {
                    Ok((ts, q))
                } else {
                    let w = i32_le(raw, q);
                    let h = i32_le(raw, q + 4);
                    let r = q + 8;
                    if w <= 0 || h <= 0 {
                        Ok(
                            (
                                ts.push(
                                    TextureModel {
                                        data: seq![],
                                        is_png: false,
                                        size_hint: Some((w, h)),
                                    },
                                ),
                                r,
                            ),
                        )
                    } else {
                        let byte_count = w * h * 4;
                        let end = min(r + byte_count, raw.len() as int);
                        let rgba = raw.subrange(r, end);
                        if end - r == byte_count {
                            match png_encoded(w as u32, h as u32, rgba) {
                                None => Err(()),
                                Some(png) => Ok(
                                    (
                                        ts.push(
                                            TextureModel {
                                                data: png,
                                                is_png: true,
                                                size_hint: Some((w, h)),
                                            },
                                        ),
                                        end,
                                    ),
                                ),
                            }
                        } else {
                            Ok(
                                (
                                    ts.push(
                                        TextureModel {
                                            data: rgba,
                                            is_png: true,
                                            size_hint: Some((w, h)),
                                        },
                                    ),
                                    end,
                                ),
                            )
                        }
                    }
                }
            },
        }
    }
}

/// The materials made of the parsed sections and the textures found after them.
pub open spec fn materials_of(s: SectionModel, textures: Seq<TextureModel>) -> MaterialsModel {
    MaterialsModel {
        material_name: s.material_name,
        material_blocks: s.material_blocks,
        textures,
        texture_ids: s.texture_ids,
    }
}

/// The material block of the current layout: materials, texture coordinates,
/// texture triangles.
pub open spec fn material_block_new_spec(
    raw: Seq<u8>,
    uv_num: int,
    face_uv_num: int,
    texture_id_num: int,
    sizes: Seq<i32>,
    mtl_name_len: int,
    map_type_count: i32,
) -> Option<(MaterialsModel, Option<Seq<[u32; 2]>>, Option<Seq<[i32; 3]>>)> {
    match section_spec(raw, 0, uv_num, face_uv_num, texture_id_num, sizes, mtl_name_len) {
        None => None,
        Some(s) => {
            let n = if map_type_count > 0 {
                map_type_count as nat
            } else {
                0nat
            };
            Some((materials_of(s, textures_new_spec(raw, n, s.next).0), s.uvs, s.face_uvs))
        },
    }
}

/// The legacy block: vertices, triangles, then the material data.
pub open spec fn material_block_old_spec(
    raw: Seq<u8>,
    vert_num: int,
    face_num: int,
    uv_num: int,
    face_uv_num: int,
    texture_id_num: int,
    sizes: Seq<i32>,
    mtl_name_len: int,
    map_type_count: i32,
) -> Result<
    (MaterialsModel, Option<Seq<[u32; 2]>>, Option<Seq<[i32; 3]>>, Seq<[u32; 3]>, Seq<[i32; 3]>),
    ParseFailure,
> {
    let p = 12 * vert_num + 12 * face_num;
    if !fits(raw, 0, 12 * vert_num) || !fits(raw, 12 * vert_num, 12 * face_num) {
        Err(ParseFailure::BlockEof)
    } else {
        match section_spec(raw, p, uv_num, face_uv_num, texture_id_num, sizes, mtl_name_len) {
            None => Err(ParseFailure::BlockEof),
            Some(s) => {
                let n = if map_type_count > 0 {
                    map_type_count as nat
                } else {
                    0nat
                };
                match textures_old_spec(raw, n, s.next) {
                    Err(()) => Err(ParseFailure::Png),
                    Ok((ts, _)) => Ok(
                        (
                            materials_of(s, ts),
                            s.uvs,
                            s.face_uvs,
                            vertices_at(raw, 0, vert_num as nat),
                            triples_at(raw, 12 * vert_num, face_num as nat),
                        ),
                    ),
                }
            },
        }
    }
}

/// The size reported as expected where decompressed data has the wrong
/// length: the required length, or `usize::MAX` where that does not fit.
pub open spec fn reported_size(n: int) -> usize {
    if n <= usize::MAX {
        n as usize
    } else {
        usize::MAX
    }
}

/// Decompresses `file[start..start + len]` and checks that `expected` bytes
/// come out.
pub open spec fn inflate_spec(file: Seq<u8>, start: int, len: int, expected: int) -> Result<
    Seq<u8>,
    ParseFailure,
> {
    match zlib_inflated(file.subrange(start, start + len)) {
        None => Err(ParseFailure::Inflate),
        Some(raw) => if raw.len() == expected {
            Ok(raw)
        } else {
            Err(ParseFailure::SizeMismatch(raw.len() as usize, reported_size(expected)))
        },
    }
}

/// A legacy file (header code 1), from offset 16 on.
pub open spec fn legacy_spec(file: Seq<u8>) -> Result<MeshModel, ParseFailure> {
    if file.len() < 44 {
        Err(ParseFailure::Truncated)
    } else {
        let total_num = count_at(file, 16);
        let vert_num = count_at(file, 20);
        let face_num = count_at(file, 24);
        let uv_num = count_at(file, 28);
        let face_uv_num = count_at(file, 32);
        let texture_id_num = count_at(file, 36);
        let material_num = count_at(file, 40);
        let p = 44 + 4 * material_num;
        if file.len() < p + 12 {
            Err(ParseFailure::Truncated)
        } else {
            let sizes = ints_at(file, 44, material_num as nat);
            let mtl_name_len = count_at(file, p);
            let map_type_count = i32_le(file, p + 4);
            let compress_num = count_at(file, p + 8);
            if file.len() < p + 12 + compress_num {
                Err(ParseFailure::Truncated)
            } else {
                match inflate_spec(file, p + 12, compress_num, total_num) {
                    Err(f) => Err(f),
                    Ok(raw) => match material_block_old_spec(
                        raw,
                        vert_num,
                        face_num,
                        uv_num,
                        face_uv_num,
                        texture_id_num,
                        sizes,
                        mtl_name_len,
                        map_type_count,
                    ) {
                        Err(f) => Err(f),
                        Ok((mats, uvs, face_uvs, vertices, faces)) => Ok(
                            MeshModel {
                                vertices,
                                faces,
                                uvs,
                                face_uvs,
                                materials: Some(mats),
                                cxbin_version: Some(1),
                                compressed_bytes: None,
                                uncompressed_bytes: None,
                            },
                        ),
                    },
                }
            }
        }
    }
}

/// The geometry-only mesh of the current layout.
pub open spec fn geometry_mesh(
    vertices: Seq<[u32; 3]>,
    faces: Seq<[i32; 3]>,
    version: Option<i32>,
    compressed: int,
    uncompressed: int,
) -> MeshModel {
    MeshModel {
        vertices,
        faces,
        uvs: None,
        face_uvs: None,
        materials: None,
        cxbin_version: version,
        compressed_bytes: Some(compressed as usize),
        uncompressed_bytes: Some(uncompressed as usize),
    }
}

/// The material part of a file of the current layout, from `r` (just after
/// the material version 1) on.
pub open spec fn material_part_spec(file: Seq<u8>, r: int) -> Result<
    (MaterialsModel, Option<Seq<[u32; 2]>>, Option<Seq<[i32; 3]>>),
    ParseFailure,
> {
    if file.len() < r + 20 {
        Err(ParseFailure::Truncated)
    } else {
        let total_num = count_at(file, r);
        let uv_num = count_at(file, r + 4);
        let face_uv_num = count_at(file, r + 8);
        let texture_id_num = count_at(file, r + 12);
        let material_num = count_at(file, r + 16);
        let p = r + 20 + 4 * material_num;
        if file.len() < p + 12 {
            Err(ParseFailure::Truncated)
        } else {
            let sizes = ints_at(file, r + 20, material_num as nat);
            let mtl_name_len = count_at(file, p);
            let map_type_count = i32_le(file, p + 4);
            let compress_num = count_at(file, p + 8);
            if file.len() < p + 12 + compress_num {
                Err(ParseFailure::Truncated)
            } else {
                match inflate_spec(file, p + 12, compress_num, total_num) {
                    Err(f) => Err(f),
                    Ok(raw) => match material_block_new_spec(
                        raw,
                        uv_num,
                        face_uv_num,
                        texture_id_num,
                        sizes,
                        mtl_name_len,
                        map_type_count,
                    ) {
                        None => Err(ParseFailure::BlockEof),
                        Some(m) => Ok(m),
                    },
                }
            }
        }
    }
}

/// A file of the current layout, from offset 16 on.
pub open spec fn current_spec(file: Seq<u8>) -> Result<MeshModel, ParseFailure> {
    if file.len() < 32 {
        Err(ParseFailure::Truncated)
    } else {
        let vert_num = count_at(file, 20);
        let face_num = count_at(file, 24);
        let compress_num = count_at(file, 28);
        if file.len() < 32 + compress_num {
            Err(ParseFailure::Truncated)
        } else {
            match inflate_spec(file, 32, compress_num, 12 * vert_num + 12 * face_num) {
                Err(f) => Err(f),
                Ok(raw) => {
                    let vertices = vertices_at(raw, 0, vert_num as nat);
                    let faces = triples_at(raw, 12 * vert_num, face_num as nat);
                    let q = 32 + compress_num;
                    if file.len() < q + 4 {
                        Ok(geometry_mesh(vertices, faces, None, compress_num, raw.len() as int))
                    } else {
                        let version = i32_le(file, q);
                        if version != 1 {
                            Ok(
                                geometry_mesh(
                                    vertices,
                                    faces,
                                    Some(version),
                                    compress_num,
                                    raw.len() as int,
                                ),
                            )
                        } else {
                            match material_part_spec(file, q + 4) {
                                Err(f) => Err(f),
                                Ok((mats, uvs, face_uvs)) => Ok(
                                    MeshModel {
                                        vertices,
                                        faces,
                                        uvs,
                                        face_uvs,
                                        materials: Some(mats),
                                        cxbin_version: Some(1),
                                        compressed_bytes: Some(compress_num as usize),
                                        uncompressed_bytes: Some(raw.len() as usize),
                                    },
                                ),
                            }
                        }
                    }
                },
            }
        }
    }
}

/// What reading the CXBin file `file` gives.
pub open spec fn cxbin_spec(file: Seq<u8>) -> Result<MeshModel, ParseFailure> {
    if file.len() < 16 {
        Err(ParseFailure::Truncated)
    } else if file.subrange(4, 16) != cxbin_magic() {
        Err(ParseFailure::InvalidMagic)
    } else if i32_le(file, 0) == 1 {
        legacy_spec(file)
    } else {
        current_spec(file)
    }
}


// ---------------------------------------------------------------------------
// Laws of the format
// ---------------------------------------------------------------------------

/// Law: the header check and the reader agree. A file that reads has the
/// magic bytes after its header code; a file of at least 16 bytes without
/// them is refused as `InvalidMagic`; a shorter one as truncated.
pub proof fn header_agrees_with_reader(file: Seq<u8>)
    ensures
        cxbin_spec(file) is Ok ==> file.len() >= 16 && file.subrange(4, 16) == cxbin_magic(),
        file.len() >= 16 && file.subrange(4, 16) != cxbin_magic() ==> cxbin_spec(file) == Err::<
            MeshModel,
            ParseFailure,
        >(ParseFailure::InvalidMagic),
        file.len() < 16 ==> cxbin_spec(file) == Err::<MeshModel, ParseFailure>(
            ParseFailure::Truncated,
        ),
{
}

proof fn lemma_current_sizes(file: Seq<u8>)
    ensures
        current_spec(file) matches Ok(m) ==> {
            &&& m.uncompressed_bytes matches Some(u) && u == (12 * m.vertices.len() + 12
                * m.faces.len()) as usize
            &&& m.compressed_bytes is Some
        },
{
    if file.len() >= 32 {
        let vert_num = count_at(file, 20);
        let face_num = count_at(file, 24);
        let compress_num = count_at(file, 28);
        if file.len() >= 32 + compress_num {
            match inflate_spec(file, 32, compress_num, 12 * vert_num + 12 * face_num) {
                Err(_) => {},
                Ok(raw) => {
                    assert(vertices_at(raw, 0, vert_num as nat).len() == vert_num);
                    assert(triples_at(raw, 12 * vert_num, face_num as nat).len() == face_num);
                },
            }
        }
    }
}

/// Law: where a read mesh reports its decompressed geometry size, that size
/// is twelve bytes per vertex and per triangle (as a `usize`); a mesh reports
/// both sizes or neither (the legacy layout reports neither).
pub proof fn geometry_size_is_reported(file: Seq<u8>)
    ensures
        cxbin_spec(file) matches Ok(m) ==> {
            &&& m.uncompressed_bytes matches Some(u) ==> u == (12 * m.vertices.len() + 12
                * m.faces.len()) as usize
            &&& (m.compressed_bytes is None <==> m.uncompressed_bytes is None)
        },
{
    if file.len() >= 16 && file.subrange(4, 16) == cxbin_magic() && i32_le(file, 0) != 1 {
        lemma_current_sizes(file);
    }
}

/// Law: a legacy file (header code 1) that reads keeps its geometry and its
/// texture coordinates. In the decompressed block, the vertices come first
/// (12 bytes each), then the triangles (12 bytes each); right after them stand
/// the `uv_num` texture coordinates (8 bytes each, the count at offset 28)
/// and then the `face_uv_num` per-face texture indices (12 bytes each, the
/// count at offset 32), then the texture ids (4 bytes each, the count at
/// offset 36). Each is in the mesh exactly where its count is positive.
pub proof fn legacy_texture_coordinates_are_read(file: Seq<u8>)
    ensures
        i32_le(file, 0) == 1 ==> (cxbin_spec(file) matches Ok(m) ==> {
            let vn = count_at(file, 20);
            let fnum = count_at(file, 24);
            let un = count_at(file, 28);
            let fun = count_at(file, 32);
            let p = 44 + 4 * count_at(file, 40);
            let cn = count_at(file, p + 8);
            let raw = zlib_inflated(file.subrange(p + 12, p + 12 + cn)).unwrap();
            let g = 12 * vn + 12 * fnum;
            &&& m.vertices == vertices_at(raw, 0, vn as nat)
            &&& m.faces == triples_at(raw, 12 * vn, fnum as nat)
            &&& un > 0 ==> m.uvs == Some(pairs_at(raw, g, un as nat)) && m.uvs.unwrap().len() == un
            &&& un <= 0 ==> m.uvs is None
            &&& fun > 0 ==> m.face_uvs == Some(triples_at(raw, g + 8 * un, fun as nat))
            &&& fun <= 0 ==> m.face_uvs is None
            &&& m.materials matches Some(mats) && mats.texture_ids == (if count_at(file, 36) > 0 {
                Some(ints_at(raw, g + 8 * un + 12 * fun, count_at(file, 36) as nat))
            } else {
                None
            })
        }),
{
}

/// Law: a file of the current layout that reads has texture coordinates only
/// where its material version 1 block follows the geometry; they are then the
/// `uv_num` pairs at the start of the material block's decompressed data
/// (8 bytes each), followed by the `face_uv_num` per-face texture indices
/// (12 bytes each) and the texture ids (4 bytes each), each present exactly
/// where its count is positive.
pub proof fn current_texture_coordinates_are_read(file: Seq<u8>)
    ensures
        i32_le(file, 0) != 1 ==> (cxbin_spec(file) matches Ok(m) ==> {
            let q = 32 + count_at(file, 28);
            let r = q + 4;
            let un = count_at(file, r + 4);
            let fun = count_at(file, r + 8);
            let p = r + 20 + 4 * count_at(file, r + 16);
            let cn = count_at(file, p + 8);
            let raw = zlib_inflated(file.subrange(p + 12, p + 12 + cn)).unwrap();
            if file.len() >= q + 4 && i32_le(file, q) == 1 {
                &&& un > 0 ==> m.uvs == Some(pairs_at(raw, 0, un as nat))
                    && m.uvs.unwrap().len() == un
                &&& un <= 0 ==> m.uvs is None
                &&& fun > 0 ==> m.face_uvs == Some(triples_at(raw, 8 * un, fun as nat))
                &&& fun <= 0 ==> m.face_uvs is None
                &&& m.materials matches Some(mats) && mats.texture_ids == (if count_at(
                    file,
                    r + 12,
                ) > 0 {
                    Some(ints_at(raw, 8 * un + 12 * fun, count_at(file, r + 12) as nat))
                } else {
                    None
                })
            } else {
                m.uvs is None && m.face_uvs is None
            }
        }),
{
}

/// Law: a file of the current layout that reads holds its geometry in the
/// zlib block after its 32-byte header: the block decompresses to exactly 12
/// bytes per vertex and per triangle (counts at offsets 20 and 24), the
/// vertices first and then the triangles; the mesh reports the compressed
/// size (offset 28) and that decompressed size.
pub proof fn current_geometry_is_read(file: Seq<u8>)
    ensures
        i32_le(file, 0) != 1 ==> (cxbin_spec(file) matches Ok(m) ==> {
            let vn = count_at(file, 20);
            let fnum = count_at(file, 24);
            let cn = count_at(file, 28);
            let raw = zlib_inflated(file.subrange(32, 32 + cn)).unwrap();
            &&& raw.len() == 12 * vn + 12 * fnum
            &&& m.vertices == vertices_at(raw, 0, vn as nat)
            &&& m.faces == triples_at(raw, 12 * vn, fnum as nat)
            &&& m.compressed_bytes == Some(cn as usize)
            &&& m.uncompressed_bytes == Some(raw.len() as usize)
        }),
{
}

/// Law: materials only come with material version 1, and texture
/// coordinates only come with materials.
pub proof fn materials_come_with_version_1(file: Seq<u8>)
    ensures
        cxbin_spec(file) matches Ok(m) ==> {
            &&& m.materials is Some ==> m.cxbin_version == Some(1i32)
            &&& (m.uvs is Some || m.face_uvs is Some) ==> m.materials is Some
        },
{
}

// ---------------------------------------------------------------------------
// Helpers
// ---------------------------------------------------------------------------

/// Whether `count` records of `width` bytes fit in `len` bytes from `p`.
fn fits_exec(len: usize, p: usize, count: usize, width: usize) -> (r: bool)
    requires
        p <= len,
        1 <= width <= 12,
    ensures
        r == (p + width * count <= len),
{
    let room = len - p;
    let r = count <= room / width;
    proof {
        let w = width as int;
        let c = count as int;
        let m = room as int;
        assert((c <= m / w) <==> (w * c <= m)) by (nonlinear_arith)
            requires
                w > 0,
                m >= 0,
                c >= 0,
        ;
    }
    r
}

/// A copy of `raw[a..b]`.
fn copy_range(raw: &[u8], a: usize, b: usize) -> (out: Vec<u8>)
    requires
        a <= b <= raw@.len(),
    ensures
        out@ == raw@.subrange(a as int, b as int),
{
    let mut out: Vec<u8> = Vec::new();
    let mut i = a;
    while i < b
        invariant
            a <= i <= b <= raw@.len(),
            out@ == raw@.subrange(a as int, i as int),
        decreases b - i,
    {
        out.push(raw[i]);
        i = i + 1;
        assert(out@ =~= raw@.subrange(a as int, i as int));
    }
    out
}

fn starts_with_png_exec(b: &Vec<u8>) -> (r: bool)
    ensures
        r == starts_with_png(b@),
{
    if b.len() < 8 {
        return false;
    }
    let r = b[0] == 137 && b[1] == 80 && b[2] == 78 && b[3] == 71 && b[4] == 13 && b[5] == 10
        && b[6] == 26 && b[7] == 10;
    assert(r ==> b@.subrange(0, 8) =~= png_signature());
    assert(b@.subrange(0, 8) == png_signature() ==> b@.subrange(0, 8)[7] == 10u8);
    r
}

/// The material name held in `raw[p..p + n]`.
fn read_material_name(raw: &Vec<u8>, p: usize, n: usize) -> (name: Option<String>)
    requires
        p + n <= raw@.len(),
    ensures
        string_opt_view(name) == material_name_spec(raw@.subrange(p as int, p + n)),
{
    let ghost bytes = raw@.subrange(p as int, p + n);
    let len = raw.len();
    let mut end: usize = 0;
    while end < n && raw[p + end] != 0
        invariant
            len == raw@.len(),
            end <= n,
            p + n <= raw@.len(),
            bytes == raw@.subrange(p as int, p + n),
            forall|j: int| 0 <= j < end ==> bytes[j] != 0u8,
        decreases n - end,
    {
        end = end + 1;
    }
    proof {
        bytes.index_of_first_ensures(0u8);
        match bytes.index_of_first(0u8) {
            Some(i) => {
                if end < n {
                    assert(bytes[end as int] == 0u8);
                    if (end as int) < i {
                        assert(bytes[end as int] != 0u8);
                    }
                } else {
                    assert(bytes[i] != 0u8);
                }
                assert(i == end as int);
            },
            None => {
                if end < n {
                    assert(bytes[end as int] == 0u8);
                    assert(bytes.contains(0u8));
                }
            },
        }
    }
    let text = copy_range(raw.as_slice(), p, p + end);
    assert(text@ =~= bytes.subrange(0, end as int));
    utf8_string(text)
}

// ---------------------------------------------------------------------------
// Material blocks
// ---------------------------------------------------------------------------

proof fn lemma_blocks_fail_extends(raw: Seq<u8>, sizes: Seq<i32>, p: int, i: int)
    requires
        0 <= i <= sizes.len(),
        material_blocks_spec(raw, sizes.take(i), p) is None,
    ensures
        material_blocks_spec(raw, sizes, p) is None,
    decreases sizes.len() - i,
{
    if i < sizes.len() {
        assert(sizes.take(i + 1).drop_last() =~= sizes.take(i));
        lemma_blocks_fail_extends(raw, sizes, p, i + 1);
    } else {
        assert(sizes.take(i) =~= sizes);
    }
}

/// The material blocks of `sizes`, read from `p`.
fn read_material_blocks(raw: &Vec<u8>, sizes: &Vec<i32>, p: usize) -> (res: Option<
    (Vec<Vec<u8>>, usize),
>)
    requires
        p <= raw@.len(),
    ensures
        match material_blocks_spec(raw@, sizes@, p as int) {
            None => res is None,
            Some((blocks, q)) => res matches Some((bs, q2)) && blocks_view(bs@) == blocks && q2
                == q,
        },
        res matches Some((_, q)) ==> q <= raw@.len(),
{
    let len = raw.len();
    let mut blocks: Vec<Vec<u8>> = Vec::new();
    let mut q = p;
    let mut i: usize = 0;
    assert(sizes@.take(0) =~= Seq::<i32>::empty());
    while i < sizes.len()
        invariant
            len == raw@.len(),
            i <= sizes@.len(),
            p <= q <= len,
            material_blocks_spec(raw@, sizes@.take(i as int), p as int) == Some(
                (blocks_view(blocks@), q as int),
            ),
        decreases sizes@.len() - i,
    {
        let size = #[verifier::truncate] (sizes[i] as usize);
        assert(sizes@.take(i + 1).drop_last() =~= sizes@.take(i as int));
        assert(sizes@.take(i + 1).last() == sizes@[i as int]);
        if size > 0 {
            if !fits_exec(len, q, size, 1) {
                proof {
                    lemma_blocks_fail_extends(raw@, sizes@, p as int, i + 1);
                }
                return None;
            }
            let block = copy_range(raw.as_slice(), q, q + size);
            blocks.push(block);
            q = q + size;
        } else {
            blocks.push(Vec::new());
        }
        i = i + 1;
        assert(blocks_view(blocks@) =~= material_blocks_spec(
            raw@,
            sizes@.take(i as int),
            p as int,
        ).unwrap().0);
    }
    assert(sizes@.take(i as int) =~= sizes@);
    Some((blocks, q))
}

/// What the two material-block layouts share, as read.
struct Section {
    uvs: Option<Vec<[u32; 2]>>,
    face_uvs: Option<Vec<[i32; 3]>>,
    texture_ids: Option<Vec<i32>>,
    material_blocks: Vec<Vec<u8>>,
    material_name: Option<String>,
    /// Where the textures start, at most the end of the block.
    next: usize,
}

spec fn section_matches(s: Section, m: SectionModel, len: int) -> bool {
    &&& vec_opt_view(s.uvs) == m.uvs
    &&& vec_opt_view(s.face_uvs) == m.face_uvs
    &&& vec_opt_view(s.texture_ids) == m.texture_ids
    &&& blocks_view(s.material_blocks@) == m.material_blocks
    &&& string_opt_view(s.material_name) == m.material_name
    &&& s.next == min(m.next, len)
    &&& m.next <= len + 1
}

fn read_section(
    raw: &Vec<u8>,
    p: usize,
    uv_num: usize,
    face_uv_num: usize,
    texture_id_num: usize,
    sizes: &Vec<i32>,
    mtl_name_len: usize,
) -> (res: Option<Section>)
    requires
        p <= raw@.len(),
    ensures
        match section_spec(
            raw@,
            p as int,
            uv_num as int,
            face_uv_num as int,
            texture_id_num as int,
            sizes@,
            mtl_name_len as int,
        ) {
            None => res is None,
            Some(m) => res matches Some(s) && section_matches(s, m, raw@.len() as int),
        },
{
    let len = raw.len();
    if !fits_exec(len, p, uv_num, 8) {
        return None;
    }
    let p1 = p + 8 * uv_num;
    if !fits_exec(len, p1, face_uv_num, 12) {
        return None;
    }
    let p2 = p1 + 12 * face_uv_num;
    if !fits_exec(len, p2, texture_id_num, 4) {
        return None;
    }
    let p3 = p2 + 4 * texture_id_num;
    let uvs = if uv_num > 0 {
        Some(decode_uvs(raw.as_slice(), p, uv_num))
    } else {
        None
    };
    let face_uvs = if face_uv_num > 0 {
        Some(decode_face_uvs(raw.as_slice(), p1, face_uv_num))
    } else {
        None
    };
    let texture_ids = if texture_id_num > 0 {
        Some(decode_texture_ids(raw.as_slice(), p2, texture_id_num))
    } else {
        None
    };
    let (material_blocks, p4) = match read_material_blocks(raw, sizes, p3) {
        None => {
            return None;
        },
        Some(r) => r,
    };
    let mut material_name: Option<String> = None;
    let mut next = p4;
    if mtl_name_len > 1 {
        if !fits_exec(len, p4, mtl_name_len, 1) {
            return None;
        }
        material_name = read_material_name(raw, p4, mtl_name_len);
        next = p4 + mtl_name_len;
    } else if mtl_name_len > 0 {
        if p4 < len {
            next = p4 + 1;
        }
    }
    Some(Section { uvs, face_uvs, texture_ids, material_blocks, material_name, next })
}


// ---------------------------------------------------------------------------
// Textures
// ---------------------------------------------------------------------------

proof fn lemma_textures_new_stops(raw: Seq<u8>, i: nat, n: nat, p: int)
    requires
        i <= n,
        textures_new_spec(raw, i, p).1 + 4 > raw.len(),
    ensures
        textures_new_spec(raw, n, p) == textures_new_spec(raw, i, p),
    decreases n - i,
{
    if i < n {
        lemma_textures_new_stops(raw, i, (n - 1) as nat, p);
    }
}

proof fn lemma_textures_old_stops(raw: Seq<u8>, i: nat, n: nat, p: int)
    requires
        i <= n,
        textures_old_spec(raw, i, p) matches Ok((_, q)) && q + 8 > raw.len(),
    ensures
        textures_old_spec(raw, n, p) == textures_old_spec(raw, i, p),
    decreases n - i,
{
    if i < n {
        lemma_textures_old_stops(raw, i, (n - 1) as nat, p);
    }
}

proof fn lemma_textures_old_fail_extends(raw: Seq<u8>, i: nat, n: nat, p: int)
    requires
        i <= n,
        textures_old_spec(raw, i, p) is Err,
    ensures
        textures_old_spec(raw, n, p) is Err,
    decreases n - i,
{
    if i < n {
        lemma_textures_old_fail_extends(raw, i, (n - 1) as nat, p);
    }
}

/// The number of texture records a block announces.
fn texture_count(map_type_count: i32) -> (n: usize)
    ensures
        n as int == (if map_type_count > 0 {
            map_type_count as int
        } else {
            0
        }),
{
    if map_type_count > 0 {
        map_type_count as usize
    } else {
        0
    }
}

/// The textures of the current layout, read from `p`.
fn read_textures_new(raw: &Vec<u8>, map_type_count: i32, p: usize) -> (textures: Vec<
    CxbinTexture,
>)
    requires
        p <= raw@.len(),
    ensures
        textures_view(textures@) == textures_new_spec(
            raw@,
            (if map_type_count > 0 {
                map_type_count as nat
            } else {
                0nat
            }),
            p as int,
        ).0,
{
    let ghost n: nat = if map_type_count > 0 {
        map_type_count as nat
    } else {
        0nat
    };
    let count = texture_count(map_type_count);
    let len = raw.len();
    let mut textures: Vec<CxbinTexture> = Vec::new();
    let mut q = p;
    let mut i: usize = 0;
    assert(textures_view(textures@) =~= Seq::<TextureModel>::empty());
    while i < count
        invariant
            len == raw@.len(),
            count == n,
            n == (if map_type_count > 0 {
                map_type_count as nat
            } else {
                0nat
            }),
            i <= count,
            q <= len,
            textures_new_spec(raw@, i as nat, p as int) == (textures_view(textures@), q as int),
        decreases count - i,
    {
        if len - q < 4 {
            proof {
                lemma_textures_new_stops(raw@, i as nat, n, p as int);
            }
            return textures;
        }
        let size = #[verifier::truncate] (read_i32_le(raw.as_slice(), q) as usize);
        let r = q + 4;
        let end = if size <= len - r {
            r + size
        } else {
            len
        };
        let data = copy_range(raw.as_slice(), r, end);
        let is_png = starts_with_png_exec(&data);
        textures.push(CxbinTexture { data, is_png, size_hint: None });
        q = end;
        i = i + 1;
        assert(textures_view(textures@) =~= textures_new_spec(raw@, i as nat, p as int).0);
    }
    textures
}

/// The PNG encoding of a complete `w` x `h` RGBA texture.
fn texture_png(w: i32, h: i32, rgba: &Vec<u8>) -> (res: Result<Vec<u8>, CxbinError>)
    requires
        w > 0,
        h > 0,
        rgba@.len() == w * h * 4,
    ensures
        match png_encoded(w as u32, h as u32, rgba@) {
            None => res matches Err(e) && failure_of(e) == ParseFailure::Png,
            Some(png) => res matches Ok(out) && out@ == png,
        },
{
    let wu = w as u32;
    let hu = h as u32;
    proof {
        let wi = w as int;
        let hi = h as int;
        assert(wi * hi * 4 == 4 * wi * hi) by (nonlinear_arith);
    }
    match encode_rgba_png(wu, hu, rgba.as_slice()) {
        Ok(png) => Ok(png),
        Err(e) => Err(CxbinError::Png(e.to_string())),
    }
}

/// The textures of the legacy layout, read from `p`.
fn read_textures_old(raw: &Vec<u8>, map_type_count: i32, p: usize) -> (res: Result<
    Vec<CxbinTexture>,
    CxbinError,
>)
    requires
        p <= raw@.len(),
    ensures
        match textures_old_spec(
            raw@,
            (if map_type_count > 0 {
                map_type_count as nat
            } else {
                0nat
            }),
            p as int,
        ) {
            Err(()) => res matches Err(e) && failure_of(e) == ParseFailure::Png,
            Ok((ts, _)) => res matches Ok(textures) && textures_view(textures@) == ts,
        },
{
    let ghost n: nat = if map_type_count > 0 {
        map_type_count as nat
    } else {
        0nat
    };
    let count = texture_count(map_type_count);
    let len = raw.len();
    let mut textures: Vec<CxbinTexture> = Vec::new();
    let mut q = p;
    let mut i: usize = 0;
    assert(textures_view(textures@) =~= Seq::<TextureModel>::empty());
    while i < count
        invariant
            len == raw@.len(),
            count == n,
            n == (if map_type_count > 0 {
                map_type_count as nat
            } else {
                0nat
            }),
            i <= count,
            q <= len,
            textures_old_spec(raw@, i as nat, p as int) == Ok::<_, ()>(
                (textures_view(textures@), q as int),
            ),
        decreases count - i,
    {
        if len - q < 8 {
            proof {
                lemma_textures_old_stops(raw@, i as nat, n, p as int);
            }
            return Ok(textures);
        }
        let w = read_i32_le(raw.as_slice(), q);
        let h = read_i32_le(raw.as_slice(), q + 4);
        let r = q + 8;
        if w <= 0 || h <= 0 {
            textures.push(CxbinTexture { data: Vec::new(), is_png: false, size_hint: Some((w, h)) });
            q = r;
        } else {
            let wu = w as usize;
            let hu = h as usize;
            let byte_count: Option<usize> = match wu.checked_mul(hu) {
                Some(x) => x.checked_mul(4),
                None => None,
            };
            let complete = match byte_count {
                Some(bc) => bc <= len - r,
                None => false,
            };
            proof {
                let wi = w as int;
                let hi = h as int;
                assert(wi * hi >= 0) by (nonlinear_arith)
                    requires
                        wi > 0,
                        hi > 0,
                ;
                if wu.checked_mul(hu) is None {
                    assert(wi * hi * 4 >= wi * hi) by (nonlinear_arith)
                        requires
                            wi * hi >= 0,
                    ;
                }
            }
            if complete {
                let bc = byte_count.unwrap();
                let rgba = copy_range(raw.as_slice(), r, r + bc);
                match texture_png(w, h, &rgba) {
                    Ok(png) => {
                        textures.push(
                            CxbinTexture { data: png, is_png: true, size_hint: Some((w, h)) },
                        );
                        q = r + bc;
                    },
                    Err(e) => {
                        proof {
                            lemma_textures_old_fail_extends(raw@, (i + 1) as nat, n, p as int);
                        }
                        return Err(e);
                    },
                }
            } else {
                let rgba = copy_range(raw.as_slice(), r, len);
                textures.push(CxbinTexture { data: rgba, is_png: true, size_hint: Some((w, h)) });
                q = len;
            }
        }
        i = i + 1;
        assert(textures_view(textures@) =~= textures_old_spec(raw@, i as nat, p as int).unwrap().0);
    }
    Ok(textures)
}


// ---------------------------------------------------------------------------
// Blocks
// ---------------------------------------------------------------------------

/// Reads the material block of the current layout from the decompressed
/// bytes `raw`: texture coordinates, texture triangles and texture ids, the
/// material blocks of `material_sizes`, the material name and the textures.
/// Texture coordinates and texture triangles are returned beside the
/// materials. Fails with `Eof` where a count reaches past the end of `raw`.
pub fn parse_material_block_new(
    raw: &Vec<u8>,
    uv_num: usize,
    face_uv_num: usize,
    texture_id_num: usize,
    material_sizes: &Vec<i32>,
    mtl_name_len: usize,
    map_type_count: i32,
) -> (res: Result<(CxbinMaterials, Option<Vec<[u32; 2]>>, Option<Vec<[i32; 3]>>), CxbinError>)
    ensures
        match material_block_new_spec(
            raw@,
            uv_num as int,
            face_uv_num as int,
            texture_id_num as int,
            material_sizes@,
            mtl_name_len as int,
            map_type_count,
        ) {
            None => res matches Err(e) && failure_of(e) == ParseFailure::BlockEof,
            Some((m, uvs, face_uvs)) => res matches Ok((mats, u, f)) && mats@ == m
                && vec_opt_view(u) == uvs && vec_opt_view(f) == face_uvs,
        },
{
    let section = match read_section(
        raw,
        0,
        uv_num,
        face_uv_num,
        texture_id_num,
        material_sizes,
        mtl_name_len,
    ) {
        None => {
            return Err(CxbinError::Eof);
        },
        Some(s) => s,
    };
    let ghost m = section_spec(
        raw@,
        0,
        uv_num as int,
        face_uv_num as int,
        texture_id_num as int,
        material_sizes@,
        mtl_name_len as int,
    ).unwrap();
    let textures = read_textures_new(raw, map_type_count, section.next);
    proof {
        let n: nat = if map_type_count > 0 {
            map_type_count as nat
        } else {
            0nat
        };
        if section.next != m.next {
            lemma_textures_new_stops(raw@, 0, n, m.next);
            lemma_textures_new_stops(raw@, 0, n, section.next as int);
        }
    }
    let mats = CxbinMaterials {
        material_name: section.material_name,
        material_blocks: section.material_blocks,
        textures,
        texture_ids: section.texture_ids,
    };
    Ok((mats, section.uvs, section.face_uvs))
}

/// Reads the legacy block from the decompressed bytes `raw`: vertices and
/// triangles first, then the material data as in the current layout, but with
/// textures stored as raw RGBA pixels (encoded as PNG here). Fails with `Eof`
/// where a count reaches past the end of `raw`, with `Png` where encoding a
/// texture fails.
pub fn parse_material_block_old(
    raw: &Vec<u8>,
    vert_num: usize,
    face_num: usize,
    uv_num: usize,
    face_uv_num: usize,
    texture_id_num: usize,
    material_sizes: &Vec<i32>,
    mtl_name_len: usize,
    map_type_count: i32,
) -> (res: Result<
    (
        CxbinMaterials,
        Option<Vec<[u32; 2]>>,
        Option<Vec<[i32; 3]>>,
        Vec<[u32; 3]>,
        Vec<[i32; 3]>,
    ),
    CxbinError,
>)
    ensures
        match material_block_old_spec(
            raw@,
            vert_num as int,
            face_num as int,
            uv_num as int,
            face_uv_num as int,
            texture_id_num as int,
            material_sizes@,
            mtl_name_len as int,
            map_type_count,
        ) {
            Err(f) => res matches Err(e) && failure_of(e) == f,
            Ok((m, uvs, face_uvs, vertices, faces)) => res matches Ok((mats, u, fu, v, f))
                && mats@ == m && vec_opt_view(u) == uvs && vec_opt_view(fu) == face_uvs && v@
                == vertices && f@ == faces,
        },
{
    let len = raw.len();
    if !fits_exec(len, 0, vert_num, 12) {
        return Err(CxbinError::Eof);
    }
    let p1 = 12 * vert_num;
    if !fits_exec(len, p1, face_num, 12) {
        return Err(CxbinError::Eof);
    }
    let p2 = p1 + 12 * face_num;
    let vertices = decode_vertices(raw.as_slice(), 0, vert_num);
    let faces = decode_faces(raw.as_slice(), p1, face_num);
    let section = match read_section(
        raw,
        p2,
        uv_num,
        face_uv_num,
        texture_id_num,
        material_sizes,
        mtl_name_len,
    ) {
        None => {
            return Err(CxbinError::Eof);
        },
        Some(s) => s,
    };
    let ghost m = section_spec(
        raw@,
        p2 as int,
        uv_num as int,
        face_uv_num as int,
        texture_id_num as int,
        material_sizes@,
        mtl_name_len as int,
    ).unwrap();
    let textures = read_textures_old(raw, map_type_count, section.next);
    proof {
        let n: nat = if map_type_count > 0 {
            map_type_count as nat
        } else {
            0nat
        };
        if section.next != m.next {
            lemma_textures_old_stops(raw@, 0, n, m.next);
            lemma_textures_old_stops(raw@, 0, n, section.next as int);
        }
    }
    let textures = match textures {
        Ok(t) => t,
        Err(e) => {
            return Err(e);
        },
    };
    let mats = CxbinMaterials {
        material_name: section.material_name,
        material_blocks: section.material_blocks,
        textures,
        texture_ids: section.texture_ids,
    };
    Ok((mats, section.uvs, section.face_uvs, vertices, faces))
}


// ---------------------------------------------------------------------------
// The file
// ---------------------------------------------------------------------------

/// Inflates the zlib stream `data`; where `expected` is given, the result must
/// have that length (else `SizeMismatch`).
pub fn zlib_decompress(data: &[u8], expected: Option<usize>) -> (res: Result<Vec<u8>, CxbinError>)
    ensures
        match zlib_inflated(data@) {
            None => res matches Err(e) && failure_of(e) == ParseFailure::Inflate,
            Some(out) => match expected {
                Some(n) if out.len() != n => res matches Err(e) && failure_of(e)
                    == ParseFailure::SizeMismatch(out.len() as usize, n),
                _ => res matches Ok(v) && v@ == out,
            },
        },
{
    let out = match zlib_inflate(data) {
        Ok(out) => out,
        Err(e) => {
            return Err(CxbinError::Io(IoFailure::Other(e.to_string())));
        },
    };
    if let Some(expected) = expected {
        if out.len() != expected {
            return Err(CxbinError::SizeMismatch { got: out.len(), expected });
        }
    }
    Ok(out)
}

/// Whether `file` holds at least `n` bytes from `p`.
fn has_bytes(file: &[u8], p: usize, n: usize) -> (r: bool)
    ensures
        r == (p + n <= file@.len()),
{
    let len = file.len();
    p <= len && n <= len - p
}

fn truncated() -> (e: CxbinError)
    ensures
        failure_of(e) == ParseFailure::Truncated,
{
    CxbinError::Io(IoFailure::UnexpectedEof)
}

/// A stored `i32` count, taken as `usize`.
fn read_count(file: &[u8], off: usize) -> (n: usize)
    requires
        off + 4 <= file@.len(),
    ensures
        n as int == count_at(file@, off as int),
{
    #[verifier::truncate]
    (read_i32_le(file, off) as usize)
}

/// The compressed block `file[start..start + len]`, inflated and checked to
/// hold `expected` bytes.
fn read_zlib_block(file: &[u8], start: usize, len: usize, expected: usize) -> (res: Result<
    Vec<u8>,
    CxbinError,
>)
    requires
        start + len <= file@.len(),
    ensures
        match inflate_spec(file@, start as int, len as int, expected as int) {
            Err(f) => res matches Err(e) && failure_of(e) == f,
            Ok(raw) => res matches Ok(v) && v@ == raw,
        },
{
    let _flen = file.len();
    let cdata = copy_range(file, start, start + len);
    zlib_decompress(cdata.as_slice(), Some(expected))
}

/// Reads the geometry block of the current layout at offset 16: the counts,
/// then the compressed vertices and triangles, which must decompress to
/// exactly `12 * vert_num + 12 * face_num` bytes. Returns the vertices, the
/// triangles, and the compressed and decompressed sizes.
pub fn parse_mesh_block(file: &[u8]) -> (res: Result<
    (Vec<[u32; 3]>, Vec<[i32; 3]>, usize, usize),
    CxbinError,
>)
    requires
        file@.len() >= 16,
    ensures
        file@.len() < 32 ==> (res matches Err(e) && failure_of(e) == ParseFailure::Truncated),
        file@.len() >= 32 ==> {
            let vert_num = count_at(file@, 20);
            let face_num = count_at(file@, 24);
            let compress_num = count_at(file@, 28);
            if file@.len() < 32 + compress_num {
                res matches Err(e) && failure_of(e) == ParseFailure::Truncated
            } else {
                match inflate_spec(file@, 32, compress_num, 12 * vert_num + 12 * face_num) {
                    Err(f) => res matches Err(e) && failure_of(e) == f,
                    Ok(raw) => res matches Ok((v, f, c, u)) && v@ == vertices_at(
                        raw,
                        0,
                        vert_num as nat,
                    ) && f@ == triples_at(raw, 12 * vert_num, face_num as nat) && c
                        == compress_num && u == raw.len(),
                }
            }
        },
{
    let _flen = file.len();
    if !has_bytes(file, 16, 16) {
        return Err(truncated());
    }
    let vert_num = read_count(file, 20);
    let face_num = read_count(file, 24);
    let compress_num = read_count(file, 28);
    if !has_bytes(file, 32, compress_num) {
        return Err(truncated());
    }
    let cdata = copy_range(file, 32, 32 + compress_num);
    let ghost exact = 12 * vert_num + 12 * face_num;
    let expected: Option<usize> = match vert_num.checked_mul(12) {
        Some(a) => match face_num.checked_mul(12) {
            Some(b) => a.checked_add(b),
            None => None,
        },
        None => None,
    };
    let raw = match expected {
        Some(n) => zlib_decompress(cdata.as_slice(), Some(n)),
        None => match zlib_decompress(cdata.as_slice(), None) {
            Ok(out) => Err(CxbinError::SizeMismatch { got: out.len(), expected: usize::MAX }),
            Err(e) => Err(e),
        },
    };
    let raw = match raw {
        Ok(r) => r,
        Err(e) => {
            return Err(e);
        },
    };
    let vertices = decode_vertices(raw.as_slice(), 0, vert_num);
    let faces = decode_faces(raw.as_slice(), 12 * vert_num, face_num);
    Ok((vertices, faces, compress_num, raw.len()))
}

/// Reads the counts, material sizes and compressed material block that
/// follow the material version 1, from `r` on.
fn parse_material_part(file: &[u8], r: usize) -> (res: Result<
    (CxbinMaterials, Option<Vec<[u32; 2]>>, Option<Vec<[i32; 3]>>),
    CxbinError,
>)
    requires
        r <= file@.len(),
    ensures
        match material_part_spec(file@, r as int) {
            Err(f) => res matches Err(e) && failure_of(e) == f,
            Ok((m, uvs, face_uvs)) => res matches Ok((mats, u, fu)) && mats@ == m && vec_opt_view(
                u,
            ) == uvs && vec_opt_view(fu) == face_uvs,
        },
{
    let _flen = file.len();
    if !has_bytes(file, r, 20) {
        return Err(truncated());
    }
    let total_num = read_count(file, r);
    let uv_num = read_count(file, r + 4);
    let face_uv_num = read_count(file, r + 8);
    let texture_id_num = read_count(file, r + 12);
    let material_num = read_count(file, r + 16);
    let len = file.len();
    if !fits_exec(len, r + 20, material_num, 4) {
        return Err(truncated());
    }
    let p = r + 20 + 4 * material_num;
    if !has_bytes(file, p, 12) {
        return Err(truncated());
    }
    let material_sizes = decode_texture_ids(file, r + 20, material_num);
    let mtl_name_len = read_count(file, p);
    let map_type_count = read_i32_le(file, p + 4);
    let compress_num = read_count(file, p + 8);
    if !has_bytes(file, p + 12, compress_num) {
        return Err(truncated());
    }
    let raw = match read_zlib_block(file, p + 12, compress_num, total_num) {
        Ok(raw) => raw,
        Err(e) => {
            return Err(e);
        },
    };
    parse_material_block_new(
        &raw,
        uv_num,
        face_uv_num,
        texture_id_num,
        &material_sizes,
        mtl_name_len,
        map_type_count,
    )
}

/// Reads a legacy file (header code 1) from offset 16 on.
fn parse_legacy(file: &[u8]) -> (res: Result<CxbinMesh, CxbinError>)
    requires
        file@.len() >= 16,
    ensures
        match legacy_spec(file@) {
            Err(f) => res matches Err(e) && failure_of(e) == f,
            Ok(m) => res matches Ok(mesh) && mesh@ == m,
        },
{
    if !has_bytes(file, 16, 28) {
        return Err(truncated());
    }
    let total_num = read_count(file, 16);
    let vert_num = read_count(file, 20);
    let face_num = read_count(file, 24);
    let uv_num = read_count(file, 28);
    let face_uv_num = read_count(file, 32);
    let texture_id_num = read_count(file, 36);
    let material_num = read_count(file, 40);
    let len = file.len();
    if !fits_exec(len, 44, material_num, 4) {
        return Err(truncated());
    }
    let p = 44 + 4 * material_num;
    if !has_bytes(file, p, 12) {
        return Err(truncated());
    }
    let material_sizes = decode_texture_ids(file, 44, material_num);
    let mtl_name_len = read_count(file, p);
    let map_type_count = read_i32_le(file, p + 4);
    let compress_num = read_count(file, p + 8);
    if !has_bytes(file, p + 12, compress_num) {
        return Err(truncated());
    }
    let raw = match read_zlib_block(file, p + 12, compress_num, total_num) {
        Ok(raw) => raw,
        Err(e) => {
            return Err(e);
        },
    };
    let (mats, uvs, face_uvs, vertices, faces) = match parse_material_block_old(
        &raw,
        vert_num,
        face_num,
        uv_num,
        face_uv_num,
        texture_id_num,
        &material_sizes,
        mtl_name_len,
        map_type_count,
    ) {
        Ok(r) => r,
        Err(e) => {
            return Err(e);
        },
    };
    Ok(
        CxbinMesh {
            vertices,
            faces,
            uvs,
            face_uvs,
            materials: Some(mats),
            cxbin_version: Some(1),
            compressed_bytes: None,
            uncompressed_bytes: None,
        },
    )
}

/// Reads a file of the current layout from offset 16 on.
fn parse_current(file: &[u8]) -> (res: Result<CxbinMesh, CxbinError>)
    requires
        file@.len() >= 16,
    ensures
        match current_spec(file@) {
            Err(f) => res matches Err(e) && failure_of(e) == f,
            Ok(m) => res matches Ok(mesh) && mesh@ == m,
        },
{
    let (vertices, faces, compressed, uncompressed) = match parse_mesh_block(file) {
        Ok(r) => r,
        Err(e) => {
            return Err(e);
        },
    };
    let _flen = file.len();
    let q = 32 + compressed;
    if !has_bytes(file, q, 4) {
        return Ok(
            CxbinMesh {
                vertices,
                faces,
                uvs: None,
                face_uvs: None,
                materials: None,
                cxbin_version: None,
                compressed_bytes: Some(compressed),
                uncompressed_bytes: Some(uncompressed),
            },
        );
    }
    let version = read_i32_le(file, q);
    if version == 1 {
        let (mats, uvs, face_uvs) = match parse_material_part(file, q + 4) {
            Ok(r) => r,
            Err(e) => {
                return Err(e);
            },
        };
        return Ok(
            CxbinMesh {
                vertices,
                faces,
                uvs,
                face_uvs,
                materials: Some(mats),
                cxbin_version: Some(version),
                compressed_bytes: Some(compressed),
                uncompressed_bytes: Some(uncompressed),
            },
        );
    }
    Ok(
        CxbinMesh {
            vertices,
            faces,
            uvs: None,
            face_uvs: None,
            materials: None,
            cxbin_version: Some(version),
            compressed_bytes: Some(compressed),
            uncompressed_bytes: Some(uncompressed),
        },
    )
}

/// Whether `file[4..16]` are the CXBin magic bytes.
fn magic_at(file: &[u8]) -> (r: bool)
    requires
        file@.len() >= 16,
    ensures
        r == (file@.subrange(4, 16) == cxbin_magic()),
{
    let r = file[4] == 10 && file[5] == 105 && file[6] == 119 && file[7] == 108 && file[8] == 115
        && file[9] == 107 && file[10] == 100 && file[11] == 102 && file[12] == 106 && file[13]
        == 97 && file[14] == 100 && file[15] == 0;
    assert(r ==> file@.subrange(4, 16) =~= cxbin_magic());
    assert(file@.subrange(4, 16) == cxbin_magic() ==> file@.subrange(4, 16)[11] == 0u8);
    r
}

/// Reads a whole CXBin file held in `file`.
///
/// The result is exactly `cxbin_spec(file@)`: the mesh it describes, or the
/// failure it describes (with the outside messages for zlib and PNG errors).
pub fn parse_cxbin(file: &[u8]) -> (res: Result<CxbinMesh, CxbinError>)
    ensures
        match cxbin_spec(file@) {
            Err(f) => res matches Err(e) && failure_of(e) == f,
            Ok(m) => res matches Ok(mesh) && mesh@ == m,
        },
{
    if !has_bytes(file, 0, 16) {
        return Err(truncated());
    }
    let head_code = read_i32_le(file, 0);
    if !magic_at(file) {
        return Err(CxbinError::InvalidMagic);
    }
    if head_code == 1 {
        parse_legacy(file)
    } else {
        parse_current(file)
    }
}

/// Checks the header of a CXBin file: `Ok(true)` where the twelve bytes after
/// the header code are the magic bytes, `Ok(false)` where they are not, and a
/// truncation error where `head` has fewer than 16 bytes.
pub fn header_has_magic(head: &[u8]) -> (res: Result<bool, CxbinError>)
    ensures
        head@.len() < 16 ==> (res matches Err(e) && failure_of(e) == ParseFailure::Truncated),
        head@.len() >= 16 ==> res == Ok::<bool, CxbinError>(head@.subrange(4, 16) == cxbin_magic()),
{
    if !has_bytes(head, 0, 16) {
        return Err(truncated());
    }
    Ok(magic_at(head))
}

} // verus!
