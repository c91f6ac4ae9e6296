//! Vertex layout derivation and the decision logic of a small OpenGL
//! rendering harness. Driver calls, windowing and file access live in the
//! application around this library; everything here is plain data.

pub mod attrib;
pub mod buffer;
pub mod data;
pub mod frame;
pub mod layout;
pub mod report;
pub mod resources;
pub mod shader;
