//! In-memory representation of a parsed CXBin mesh.
//!
//! Coordinates (vertex positions and texture coordinates) are single-precision
//! floats in the file; they are kept here as their IEEE-754 bit patterns.
use vstd::prelude::*;

verus! {

/// One texture image found in a material block.
#[derive(Debug)]
pub struct CxbinTexture {
    pub data: Vec<u8>,
    pub is_png: bool,
    pub size_hint: Option<(i32, i32)>,
}

/// Mathematical model of a [`CxbinTexture`].
pub struct TextureModel {
    pub data: Seq<u8>,
    pub is_png: bool,
    pub size_hint: Option<(i32, i32)>,
}

impl View for CxbinTexture {
    type V = TextureModel;

    open spec fn view(&self) -> TextureModel {
        TextureModel { data: self.data@, is_png: self.is_png, size_hint: self.size_hint }
    }
}

/// Material data of a CXBin file.
#[derive(Debug)]
pub struct CxbinMaterials {
    pub material_name: Option<String>,
    pub material_blocks: Vec<Vec<u8>>,
    pub textures: Vec<CxbinTexture>,
    pub texture_ids: Option<Vec<i32>>,
}

/// Mathematical model of [`CxbinMaterials`].
pub struct MaterialsModel {
    pub material_name: Option<Seq<char>>,
    pub material_blocks: Seq<Seq<u8>>,
    pub textures: Seq<TextureModel>,
    pub texture_ids: Option<Seq<i32>>,
}

/// The characters of an optional string.
pub open spec fn string_opt_view(s: Option<String>) -> Option<Seq<char>> {
    match s {
        Some(s) => Some(s@),
        None => None,
    }
}

/// The elements of an optional vector.
pub open spec fn vec_opt_view<T>(v: Option<Vec<T>>) -> Option<Seq<T>> {
    match v {
        Some(v) => Some(v@),
        None => None,
    }
}

/// The bytes of each raw material block.
pub open spec fn blocks_view(blocks: Seq<Vec<u8>>) -> Seq<Seq<u8>> {
    blocks.map_values(|b: Vec<u8>| b@)
}

/// The model of each texture.
pub open spec fn textures_view(textures: Seq<CxbinTexture>) -> Seq<TextureModel> {
    textures.map_values(|t: CxbinTexture| t@)
}

impl View for CxbinMaterials {
    type V = MaterialsModel;

    open spec fn view(&self) -> MaterialsModel {
        MaterialsModel {
            material_name: string_opt_view(self.material_name),
            material_blocks: blocks_view(self.material_blocks@),
            textures: textures_view(self.textures@),
            texture_ids: vec_opt_view(self.texture_ids),
        }
    }
}

/// A parsed CXBin mesh.
#[derive(Debug)]
pub struct CxbinMesh {
    /// Vertex positions, three `f32` bit patterns each.
    pub vertices: Vec<[u32; 3]>,
    /// Triangles, three vertex indices each.
    pub faces: Vec<[i32; 3]>,
    /// Texture coordinates, two `f32` bit patterns each.
    pub uvs: Option<Vec<[u32; 2]>>,
    pub face_uvs: Option<Vec<[i32; 3]>>,
    pub materials: Option<CxbinMaterials>,
    pub cxbin_version: Option<i32>,
    pub compressed_bytes: Option<usize>,
    pub uncompressed_bytes: Option<usize>,
}

/// Mathematical model of a [`CxbinMesh`].
pub struct MeshModel {
    pub vertices: Seq<[u32; 3]>,
    pub faces: Seq<[i32; 3]>,
    pub uvs: Option<Seq<[u32; 2]>>,
    pub face_uvs: Option<Seq<[i32; 3]>>,
    pub materials: Option<MaterialsModel>,
    pub cxbin_version: Option<i32>,
    pub compressed_bytes: Option<usize>,
    pub uncompressed_bytes: Option<usize>,
}

/// The model of optional materials.
pub open spec fn materials_opt_view(m: Option<CxbinMaterials>) -> Option<MaterialsModel> {
    match m {
        Some(m) => Some(m@),
        None => None,
    }
}

impl View for CxbinMesh {
    type V = MeshModel;

    open spec fn view(&self) -> MeshModel {
        MeshModel {
            vertices: self.vertices@,
            faces: self.faces@,
            uvs: vec_opt_view(self.uvs),
            face_uvs: vec_opt_view(self.face_uvs),
            materials: materials_opt_view(self.materials),
            cxbin_version: self.cxbin_version,
            compressed_bytes: self.compressed_bytes,
            uncompressed_bytes: self.uncompressed_bytes,
        }
    }
}

impl CxbinMesh {
    /// Number of vertices.
    pub fn vertex_count(&self) -> (n: usize)
        ensures
            n == self.vertices@.len(),
    {
        self.vertices.len()
    }

    /// Number of triangles.
    pub fn face_count(&self) -> (n: usize)
        ensures
            n == self.faces@.len(),
    {
        self.faces.len()
    }
}

} // verus!
