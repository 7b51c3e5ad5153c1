//! The dense voxel occupancy chunk: a fixed 32x32x32 region of cells, where
//! 0 is empty and any other value is solid. The physics tick reads it only
//! through the occupancy query below.
//!
//! Probes outside the chunk: a query at a coordinate beyond the chunk's
//! positive bounds reports an empty cell. This is a deliberate choice of the
//! boundary behaviour (clamp-to-empty), made once here and held across the
//! whole crate; the alternative of treating such a probe as fatal was
//! rejected so that the occupancy query is total and the tick never aborts.

use vstd::prelude::*;
use crate::array_3d::Array3D;
use crate::vec3::{Vec3, vec_i32_as_usize};

verus! {

/// Edge length of a chunk, in voxels, on every axis.
pub const CHUNK_EDGE: usize = 32;

/// The size of a chunk: `CHUNK_EDGE` voxels on every axis.
pub fn chunk_size() -> (r: Vec3<usize>)
    ensures
        r == (Vec3 { x: CHUNK_EDGE as usize, y: CHUNK_EDGE as usize, z: CHUNK_EDGE as usize }),
{
    Vec3 { x: CHUNK_EDGE, y: CHUNK_EDGE, z: CHUNK_EDGE }
}

pub struct VoxelChunk {
    pub voxels: Array3D,
}

impl VoxelChunk {
    /// The storage is well formed and has the fixed chunk size.
    pub open spec fn wf(self) -> bool {
        self.voxels.wf() && self.voxels.size == (Vec3 {
            x: CHUNK_EDGE as usize,
            y: CHUNK_EDGE as usize,
            z: CHUNK_EDGE as usize,
        })
    }

    /// The occupancy of a cell: its stored value inside the chunk, and 0
    /// (empty) at any coordinate outside the chunk's bounds.
    pub open spec fn spec_voxel_at(self, x: int, y: int, z: int) -> i32 {
        if 0 <= x < self.voxels.size.x && 0 <= y < self.voxels.size.y && 0 <= z
            < self.voxels.size.z {
            self.voxels.spec_at(x, y, z)
        } else {
            0
        }
    }

    /// An empty chunk of the fixed size.
    pub fn new() -> (r: VoxelChunk)
        ensures
            r.wf(),
            forall|x: int, y: int, z: int| r.spec_voxel_at(x, y, z) == 0,
    {
        let size = chunk_size();
        proof {
            assert(size.x == 32 && size.y == 32 && size.z == 32);
            assert(size.x * size.y == 1024);
            assert(size.x * size.y * size.z == 32768);
        }
        let voxels = Array3D::new(size);
        proof {
            assert forall|x: int, y: int, z: int| #[trigger] (VoxelChunk { voxels }).spec_voxel_at(
                x,
                y,
                z,
            ) == 0 by {
                if 0 <= x < voxels.size.x && 0 <= y < voxels.size.y && 0 <= z < voxels.size.z {
                    voxels.lemma_index_in_range(x, y, z);
                }
            }
        }
        VoxelChunk { voxels }
    }

    /// Store a value at an in-bounds voxel coordinate; every other cell keeps
    /// its occupancy.
    pub fn set_voxel(&mut self, coord: Vec3<usize>, value: i32)
        requires
            old(self).wf(),
            coord.x < CHUNK_EDGE,
            coord.y < CHUNK_EDGE,
            coord.z < CHUNK_EDGE,
        ensures
            final(self).wf(),
            forall|x: int, y: int, z: int|
                final(self).spec_voxel_at(x, y, z) == (if x == coord.x && y == coord.y && z
                    == coord.z {
                    value
                } else {
                    old(self).spec_voxel_at(x, y, z)
                }),
    {
        let ghost pre = *self;
        self.voxels.set(coord, value);
        proof {
            let cx = coord.x as int;
            let cy = coord.y as int;
            let cz = coord.z as int;
            assert forall|x: int, y: int, z: int| #[trigger] self.spec_voxel_at(x, y, z) == (if x
                == cx && y == cy && z == cz {
                value
            } else {
                pre.spec_voxel_at(x, y, z)
            }) by {
                if 0 <= x < pre.voxels.size.x && 0 <= y < pre.voxels.size.y && 0 <= z
                    < pre.voxels.size.z {
                    pre.voxels.lemma_index_in_range(x, y, z);
                    pre.voxels.lemma_index_in_range(cx, cy, cz);
                    if pre.voxels.spec_index_of(x, y, z) == pre.voxels.spec_index_of(cx, cy, cz) {
                        pre.voxels.lemma_index_injective(x, y, z, cx, cy, cz);
                    }
                }
            }
        }
    }

    /// The occupancy query of the physics tick: the value at a voxel
    /// coordinate, where a probe beyond the chunk's bounds reports empty.
    pub fn get_voxel(&self, coord: Vec3<usize>) -> (r: i32)
        requires
            self.wf(),
        ensures
            r == self.spec_voxel_at(coord.x as int, coord.y as int, coord.z as int),
    {
        if self.voxels.is_out_of_bounds(coord) {
            0
        } else {
            self.voxels.get(coord)
        }
    }

    /// The occupancy at a signed voxel coordinate, with the same boundary
    /// behaviour: any probe outside the chunk, negative included, is empty.
    pub fn get_voxel_i32(&self, coord: Vec3<i32>) -> (r: i32)
        requires
            self.wf(),
        ensures
            r == self.spec_voxel_at(coord.x as int, coord.y as int, coord.z as int),
    {
        if self.is_i32_out_of_bounds(coord) {
            0
        } else {
            self.voxels.get(vec_i32_as_usize(coord))
        }
    }

    /// Whether a signed coordinate lies outside the chunk.
    pub fn is_i32_out_of_bounds(&self, coord: Vec3<i32>) -> (r: bool)
        ensures
            r == (coord.x < 0 || coord.y < 0 || coord.z < 0 || self.voxels.spec_out_of_bounds(
                coord.x as int,
                coord.y as int,
                coord.z as int,
            )),
    {
        self.voxels.is_i32_out_of_bounds(coord)
    }

    /// Whether the face of a voxel towards a neighbouring direction is
    /// exposed: the adjacent cell lies outside the chunk or is empty.
    pub fn is_face_visible(&self, voxel_position: Vec3<i32>, face_direction: Vec3<i32>) -> (r:
        bool)
        requires
            self.wf(),
            i32::MIN <= voxel_position.x + face_direction.x <= i32::MAX,
            i32::MIN <= voxel_position.y + face_direction.y <= i32::MAX,
            i32::MIN <= voxel_position.z + face_direction.z <= i32::MAX,
        ensures
            r == (self.spec_voxel_at(
                voxel_position.x + face_direction.x,
                voxel_position.y + face_direction.y,
                voxel_position.z + face_direction.z,
            ) == 0),
    {
        let adjacent_position = Vec3 {
            x: voxel_position.x + face_direction.x,
            y: voxel_position.y + face_direction.y,
            z: voxel_position.z + face_direction.z,
        };
        if self.is_i32_out_of_bounds(adjacent_position) {
            return true;
        }
        self.voxels.get_i32(adjacent_position) == 0
    }
}

} // verus!
