//! Triangle meshes for a 2D renderer: shapes are accumulated into one vertex
//! and index list, laid out as bytes for a graphics device, and tracked
//! through buffer growth by a capacity and an identity.
//!
//! Real numbers are carried as the bit patterns of IEEE 754 single-precision
//! values ([`scalar::Scalar`]); the arithmetic on them belongs to the
//! tessellator that callers hand to the shape operations.

pub mod scalar;
pub mod vertex;
pub mod draw;
pub mod shape;
pub mod buffers;
pub mod builder;
pub mod mesh;
pub mod equality;
pub mod event;
