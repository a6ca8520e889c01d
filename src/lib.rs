//! Storage and structure for small 3D graphics scenes: the layout of 4x4
//! matrices, the vertices and triangles of procedurally generated cube and
//! cylinder meshes, packed vertex colours, and RGBA texture images.
pub mod matrix;
pub mod mesh;
pub mod cube;
pub mod cylinder;
pub mod color;
pub mod image;
