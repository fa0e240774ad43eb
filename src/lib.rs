//! Verified integer core of a small WebGL torus renderer: the column-major
//! layout of 4x4 matrices, the index topology of the torus mesh, and the
//! per-frame decisions of the render loop.

pub mod layout;
pub mod mesh;
pub mod frame;
