//! The CXBin model format: the mesh it holds, and the reader.
pub mod mesh;
pub mod outside;
pub mod reader;
