//! Stroke tessellation: turns a freehand stroke (a polyline with a width per
//! point and one color) into a flat triangle-list mesh ready for GPU upload.
//!
//! Every scalar of the mesh is carried as the raw bit pattern of an IEEE 754
//! binary32 number. The numeric geometry (directions, normals, miter lengths,
//! arc samples) is computed by the caller; this crate owns everything that can
//! be stated exactly over those scalars: which triangles are emitted, in which
//! order, with which attributes, and how joins are classified.

pub mod fan;
pub mod join;
pub mod mesh;
pub mod vertex;
