//! Deterministic voxel-world simulation substrate: a sign-magnitude
//! fixed-point scalar and the per-axis swept collision/physics tick built
//! on it, together with the dense occupancy grid the tick probes.

pub mod fixed_point;
pub mod vec3;
pub mod array_3d;
pub mod voxel;
pub mod physics_world;
pub mod ecosim;
