//! Reading Creality CXBin model files and rendering their meshes in common
//! 3D exchange formats.
pub mod bytes;
pub mod conversion;
pub mod cxbin;
pub mod export;
pub mod text;
