//! A plain triple of components, used for positions, velocities and sizes
//! (over `Fixed`) and for grid coordinates (over `usize` and `i32`).

use vstd::prelude::*;
use crate::fixed_point::{Fixed, spec_add, units_in_range};

verus! {

#[derive(Copy, Clone, PartialEq, Eq, Structural, Debug)]
pub struct Vec3<T> {
    pub x: T,
    pub y: T,
    pub z: T,
}

impl<T> Vec3<T> {
    /// Build a triple from its components.
    pub fn new(x: T, y: T, z: T) -> (r: Vec3<T>)
        ensures
            r == (Vec3 { x, y, z }),
    {
        Vec3 { x, y, z }
    }
}

/// The axes of a triple, in the fixed resolution order of the physics tick.
#[derive(Copy, Clone, PartialEq, Eq, Structural, Debug)]
pub enum Axis {
    X,
    Y,
    Z,
}

impl<T: Copy> Vec3<T> {
    /// The component on an axis.
    pub open spec fn spec_axis(self, axis: Axis) -> T {
        match axis {
            Axis::X => self.x,
            Axis::Y => self.y,
            Axis::Z => self.z,
        }
    }

    /// The triple with the component on one axis replaced.
    pub open spec fn spec_with_axis(self, axis: Axis, v: T) -> Vec3<T> {
        match axis {
            Axis::X => Vec3 { x: v, ..self },
            Axis::Y => Vec3 { y: v, ..self },
            Axis::Z => Vec3 { z: v, ..self },
        }
    }

    /// Read the component on an axis.
    pub fn axis(&self, axis: Axis) -> (r: T)
        ensures
            r == self.spec_axis(axis),
    {
        match axis {
            Axis::X => self.x,
            Axis::Y => self.y,
            Axis::Z => self.z,
        }
    }

    /// Replace the component on an axis.
    pub fn set_axis(&mut self, axis: Axis, v: T)
        ensures
            *final(self) == old(self).spec_with_axis(axis, v),
    {
        match axis {
            Axis::X => self.x = v,
            Axis::Y => self.y = v,
            Axis::Z => self.z = v,
        }
    }
}

/// All three `Fixed` components are well formed.
pub open spec fn vec3_wf(v: Vec3<Fixed>) -> bool {
    v.x.wf() && v.y.wf() && v.z.wf()
}

/// Component-wise sum of two `Fixed` triples.
pub open spec fn spec_vec3_add(a: Vec3<Fixed>, b: Vec3<Fixed>) -> Vec3<Fixed> {
    Vec3 { x: spec_add(a.x, b.x), y: spec_add(a.y, b.y), z: spec_add(a.z, b.z) }
}

/// Add a triple to another, component by component.
pub fn add_vec_to_vec(v1: Vec3<Fixed>, v2: Vec3<Fixed>) -> (r: Vec3<Fixed>)
    requires
        vec3_wf(v1),
        vec3_wf(v2),
        units_in_range(v1.x.units() + v2.x.units()),
        units_in_range(v1.y.units() + v2.y.units()),
        units_in_range(v1.z.units() + v2.z.units()),
    ensures
        r == spec_vec3_add(v1, v2),
{
    Vec3 { x: v1.x + v2.x, y: v1.y + v2.y, z: v1.z + v2.z }
}

/// Convert a non-negative `i32` triple to a `usize` triple, component-wise.
pub fn vec_i32_as_usize(v: Vec3<i32>) -> (r: Vec3<usize>)
    requires
        v.x >= 0,
        v.y >= 0,
        v.z >= 0,
    ensures
        r.x == v.x && r.y == v.y && r.z == v.z,
{
    Vec3 { x: v.x as usize, y: v.y as usize, z: v.z as usize }
}

} // verus!
