//! The pure rules of the flower-growth simulation: sprite selection from a
//! genome and life stage, the stress bookkeeping that decides death, and
//! the adjacency test for growing into a voxel. The surrounding simulation
//! loop draws random numbers and owns the entities; these rules decide.

use vstd::prelude::*;
use crate::vec3::Vec3;
use crate::voxel::VoxelChunk;

verus! {

/// Age, in ticks, at which a flower is mature.
pub const FLOWER_MATURITY_AGE: u32 = 20;

/// Age, in ticks, past which a flower may die of old age.
pub const FLOWER_LIFESPAN: u32 = 120;

/// The sprite cell for a flower genome: column from the lowest genome bit,
/// row from the second-lowest.
pub fn flower_get_sprite_index(genome: u32) -> (r: (u32, u32))
    ensures
        r.0 == (if genome & 1 > 0 { 1u32 } else { 0u32 }),
        r.1 == (if genome & 2 > 0 { 1u32 } else { 0u32 }),
{
    let x: u32 = if genome & 0x1 > 0 { 1 } else { 0 };
    let y: u32 = if genome & 0x2 > 0 { 1 } else { 0 };
    (x, y)
}

/// The sprite cell for a living or dead flower entity: the column follows
/// its growth stage (seedling, adolescent, mature), the row is the wilted
/// row when dead and otherwise one of four colourings from the two lowest
/// genome bits.
pub fn flower_sprite_cell(age_ticks: u32, is_dead: bool, genome: u32) -> (r: (u32, u32))
    ensures
        r.0 == (if age_ticks < FLOWER_MATURITY_AGE / 2 {
            0u32
        } else if age_ticks < FLOWER_MATURITY_AGE {
            1u32
        } else {
            2u32
        }),
        r.1 == (if is_dead {
            4u32
        } else {
            ({
                let light = genome & 1 > 0;
                let color = genome & 2 > 0;
                if light {
                    if color {
                        2u32
                    } else {
                        0u32
                    }
                } else {
                    if color {
                        3u32
                    } else {
                        1u32
                    }
                }
            })
        }),
{
    let x: u32 = if age_ticks < FLOWER_MATURITY_AGE / 2 {
        0
    } else if age_ticks < FLOWER_MATURITY_AGE {
        1
    } else {
        2
    };
    let y: u32 = if is_dead {
        4
    } else {
        let light = genome & 0b1 > 0;
        let color = genome & 0b10 > 0;
        if light {
            if color {
                2
            } else {
                0
            }
        } else {
            if color {
                3
            } else {
                1
            }
        }
    };
    (x, y)
}

/// Fold one tick of crowding into a flower's stress and decide whether it
/// dies: a voxel shared by `population` living flowers adds the square of
/// the count above one, and a flower dies when its stress passes the
/// threshold of its life stage (200 before maturity, above 2000 after).
pub fn flower_stress_update(age_ticks: u32, stress: u32, population: u32) -> (r: (u32, bool))
    requires
        population >= 1,
        population <= 65536,
        stress + (population - 1) * (population - 1) <= u32::MAX,
    ensures
        r.0 == stress + (if population >= 2 {
            ((population - 1) * (population - 1)) as int
        } else {
            0int
        }),
        r.1 == ((age_ticks < FLOWER_MATURITY_AGE && r.0 >= 200) || (age_ticks
            >= FLOWER_MATURITY_AGE && r.0 > 2000)),
{
    let mut new_stress = stress;
    if population >= 2 {
        let n = population - 1;
        proof {
            assert(n * n <= u32::MAX - stress) by (nonlinear_arith)
                requires
                    stress + n * n <= u32::MAX,
                    n >= 0,
            ;
        }
        new_stress = stress + n * n;
    }
    let dies = (age_ticks < FLOWER_MATURITY_AGE && new_stress >= 200) || (age_ticks
        >= FLOWER_MATURITY_AGE && new_stress > 2000);
    (new_stress, dies)
}

/// Whether a flower may grow into a voxel: the cell and the one below it
/// lie inside the grid, the cell is empty, and the cell below holds soil
/// (value 1).
pub fn can_entity_grow_into_coord(coord: Vec3<i32>, voxels: &VoxelChunk) -> (r: bool)
    requires
        voxels.wf(),
        coord.y > i32::MIN,
    ensures
        r == (coord.x >= 0 && coord.y >= 1 && coord.z >= 0 && !voxels.voxels.spec_out_of_bounds(
            coord.x as int,
            coord.y as int,
            coord.z as int,
        ) && voxels.spec_voxel_at(coord.x as int, coord.y as int, coord.z as int) == 0
            && voxels.spec_voxel_at(coord.x as int, coord.y as int - 1, coord.z as int) == 1),
{
    if voxels.is_i32_out_of_bounds(coord) {
        return false;
    }
    let below_coord = Vec3 { x: coord.x, y: coord.y - 1, z: coord.z };
    if voxels.is_i32_out_of_bounds(below_coord) {
        return false;
    }
    voxels.get_voxel_i32(coord) == 0 && voxels.get_voxel_i32(below_coord) == 1
}

} // verus!
