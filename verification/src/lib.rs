//! Two-dimensional poses for scene nodes that live in a hierarchy of
//! three-dimensional affine transforms.
//!
//! Numbers are single-precision and are held by their bit patterns, so that
//! every statement about them is exact.

pub mod scalar;
pub mod vector;
pub mod transform2;
pub mod global;
pub mod node;
pub mod schedule;
