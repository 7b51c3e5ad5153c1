//! The per-axis swept collision/physics tick. Each tick adds gravity to a
//! body's velocity, then advances its position one axis at a time — X, then
//! Y, then Z, an order that decides which wall a diagonally moving body
//! slides along — in steps of one epsilon (1/256), validating every step
//! against the voxel occupancy grid. A colliding step is rolled back, the
//! velocity on that axis is zeroed, and on the Y axis the body is marked as
//! standing on ground.
//!
//! Voxel probes outside the grid report empty cells (see `crate::voxel`);
//! a coordinate whose floor is negative falls back to voxel index 0 rather
//! than being excluded, a deliberate quirk of the box computation that
//! under-tests the grid near its negative boundaries.

use vstd::prelude::*;
use crate::fixed_point::{
    Fixed,
    spec_add,
    units_in_range,
    lemma_from_units_val,
};
use crate::vec3::{Vec3, Axis, vec3_wf, spec_vec3_add, add_vec_to_vec};
use crate::voxel::VoxelChunk;

verus! {

#[derive(Copy, Clone, PartialEq, Eq, Structural, Debug)]
pub struct PhysicsBody {
    pub position: Vec3<Fixed>,
    pub velocity: Vec3<Fixed>,
    pub collision_size: Vec3<Fixed>,
    pub is_on_ground: bool,
}

pub struct PhysicsConfig {
    pub gravity: Vec3<Fixed>,
}

impl Default for PhysicsConfig {
    /// A configuration with zero gravity.
    fn default() -> (r: PhysicsConfig)
        ensures
            r.gravity == (Vec3 {
                x: Fixed::spec_zero(),
                y: Fixed::spec_zero(),
                z: Fixed::spec_zero(),
            }),
    {
        PhysicsConfig {
            gravity: Vec3 { x: Fixed::zero(), y: Fixed::zero(), z: Fixed::zero() },
        }
    }
}

impl PhysicsBody {
    /// Every fixed-point component of the body is well formed.
    pub open spec fn wf(self) -> bool {
        vec3_wf(self.position) && vec3_wf(self.velocity) && vec3_wf(self.collision_size)
    }

    /// The body collides with voxels: no component of its collision box is
    /// the all-zero value. (A zero magnitude carrying a negative sign still
    /// counts as a box, a quirk of the representation-level comparison.)
    pub open spec fn spec_has_collision(self) -> bool {
        self.collision_size.x != Fixed::spec_zero() && self.collision_size.y != Fixed::spec_zero()
            && self.collision_size.z != Fixed::spec_zero()
    }

    /// The far corner of the collision box: `position + collision_size -
    /// epsilon` per axis, keeping the box extent inclusive-exclusive so a box
    /// aligned to a voxel boundary does not span the next cell.
    pub open spec fn spec_extent(self) -> Vec3<Fixed> {
        let neg_epsilon = Fixed { negative: true, whole: 0, fraction: 1 };
        spec_vec3_add(
            self.position,
            spec_vec3_add(
                self.collision_size,
                Vec3 { x: neg_epsilon, y: neg_epsilon, z: neg_epsilon },
            ),
        )
    }

    /// The collision box fits the representable range at the current
    /// position: each axis extent `position + size - epsilon` is a
    /// representable count of 1/256 units.
    pub open spec fn spec_box_fits(self) -> bool {
        units_in_range(self.collision_size.x.units() - 1) && units_in_range(
            self.collision_size.y.units() - 1,
        ) && units_in_range(self.collision_size.z.units() - 1) && units_in_range(
            self.position.x.units() + self.collision_size.x.units() - 1,
        ) && units_in_range(self.position.y.units() + self.collision_size.y.units() - 1)
            && units_in_range(self.position.z.units() + self.collision_size.z.units() - 1)
    }

    /// A body at rest at the origin, with no collision box.
    pub fn new() -> (r: PhysicsBody)
        ensures
            r == (PhysicsBody {
                position: Vec3 {
                    x: Fixed::spec_zero(),
                    y: Fixed::spec_zero(),
                    z: Fixed::spec_zero(),
                },
                velocity: Vec3 {
                    x: Fixed::spec_zero(),
                    y: Fixed::spec_zero(),
                    z: Fixed::spec_zero(),
                },
                collision_size: Vec3 {
                    x: Fixed::spec_zero(),
                    y: Fixed::spec_zero(),
                    z: Fixed::spec_zero(),
                },
                is_on_ground: false,
            }),
            r.wf(),
    {
        let zero_vector = Vec3 { x: Fixed::zero(), y: Fixed::zero(), z: Fixed::zero() };
        PhysicsBody {
            position: zero_vector,
            velocity: zero_vector,
            collision_size: zero_vector,
            is_on_ground: false,
        }
    }

    /// Whether the body has a collision box.
    pub fn has_collision(&self) -> (r: bool)
        ensures
            r == self.spec_has_collision(),
    {
        let zero = Fixed::zero();
        self.collision_size.x != zero && self.collision_size.y != zero && self.collision_size.z
            != zero
    }

    /// The far corner of the collision box, `position + collision_size`
    /// less one epsilon on each axis.
    pub fn collision_extent(&self) -> (r: Vec3<Fixed>)
        requires
            self.wf(),
            self.spec_box_fits(),
        ensures
            r == self.spec_extent(),
            vec3_wf(r),
    {
        let neg_epsilon = Fixed::from_parts(true, 0, 1);
        proof {
            lemma_from_units_val(self.collision_size.x.units() - 1, self.collision_size.x.negative);
            lemma_from_units_val(self.collision_size.y.units() - 1, self.collision_size.y.negative);
            lemma_from_units_val(self.collision_size.z.units() - 1, self.collision_size.z.negative);
        }
        let inner = add_vec_to_vec(
            self.collision_size,
            Vec3 { x: neg_epsilon, y: neg_epsilon, z: neg_epsilon },
        );
        let r = add_vec_to_vec(self.position, inner);
        proof {
            lemma_from_units_val(self.position.x.units() + inner.x.units(), self.position.x.negative);
            lemma_from_units_val(self.position.y.units() + inner.y.units(), self.position.y.negative);
            lemma_from_units_val(self.position.z.units() + inner.z.units(), self.position.z.negative);
        }
        r
    }
}

/// The voxel index a fixed-point coordinate falls in: the floor of the
/// coordinate, or nothing when that floor is negative.
pub open spec fn spec_physics_to_voxel(component: Fixed) -> Option<usize> {
    if component.negative && component.mag() != 0 {
        Option::None
    } else {
        Option::Some(component.whole as usize)
    }
}

/// The voxel index of a coordinate, with the negative fallback applied:
/// a coordinate whose floor is negative is treated as voxel index 0.
pub open spec fn spec_voxel_clamp(component: Fixed) -> int {
    if component.negative && component.mag() != 0 {
        0
    } else {
        component.whole as int
    }
}

/// The voxel index a fixed-point coordinate falls in, or `None` for a
/// coordinate below zero.
pub fn physics_to_voxel(component: Fixed) -> (r: Option<usize>)
    requires
        component.wf(),
    ensures
        r == spec_physics_to_voxel(component),
{
    if component.is_negative() && !(component.whole == 0 && component.fraction == 0) {
        Option::None
    } else {
        Option::Some(component.whole as usize)
    }
}

/// The body overlaps a solid voxel: it has a collision box, and some voxel
/// coordinate within the integer bounding box covering `[position, position
/// + collision_size - epsilon]` per axis — each bound clamped to index 0
/// when its floor is negative — holds a non-zero cell.
pub open spec fn spec_collides(body: PhysicsBody, chunk: VoxelChunk) -> bool {
    &&& body.spec_has_collision()
    &&& exists|x: int, y: int, z: int|
        spec_voxel_clamp(body.position.x) <= x <= spec_voxel_clamp(body.spec_extent().x)
            && spec_voxel_clamp(body.position.y) <= y <= spec_voxel_clamp(body.spec_extent().y)
            && spec_voxel_clamp(body.position.z) <= z <= spec_voxel_clamp(body.spec_extent().z)
            && #[trigger] chunk.spec_voxel_at(x, y, z) != 0
}

/// Scan the integer bounding box of the body's collision box for a solid
/// voxel.
pub(crate) fn is_body_colliding_with_voxels(body: &PhysicsBody, voxels: &VoxelChunk) -> (r: bool)
    requires
        body.wf(),
        voxels.wf(),
        body.spec_has_collision() ==> body.spec_box_fits(),
    ensures
        r == spec_collides(*body, *voxels),
{
    if !body.has_collision() {
        return false;
    }
    let min_voxel_x = match physics_to_voxel(body.position.x) {
        Option::Some(v) => v,
        Option::None => 0,
    };
    let min_voxel_y = match physics_to_voxel(body.position.y) {
        Option::Some(v) => v,
        Option::None => 0,
    };
    let min_voxel_z = match physics_to_voxel(body.position.z) {
        Option::Some(v) => v,
        Option::None => 0,
    };
    let extent = body.collision_extent();
    let max_voxel_x = match physics_to_voxel(extent.x) {
        Option::Some(v) => v,
        Option::None => 0,
    };
    let max_voxel_y = match physics_to_voxel(extent.y) {
        Option::Some(v) => v,
        Option::None => 0,
    };
    let max_voxel_z = match physics_to_voxel(extent.z) {
        Option::Some(v) => v,
        Option::None => 0,
    };
    let ghost minx = spec_voxel_clamp(body.position.x);
    let ghost miny = spec_voxel_clamp(body.position.y);
    let ghost minz = spec_voxel_clamp(body.position.z);
    let ghost maxx = spec_voxel_clamp(body.spec_extent().x);
    let ghost maxy = spec_voxel_clamp(body.spec_extent().y);
    let ghost maxz = spec_voxel_clamp(body.spec_extent().z);
    let mut x = min_voxel_x;
    while x <= max_voxel_x
        invariant
            voxels.wf(),
            body.spec_has_collision(),
            minx == spec_voxel_clamp(body.position.x),
            miny == spec_voxel_clamp(body.position.y),
            minz == spec_voxel_clamp(body.position.z),
            maxx == spec_voxel_clamp(body.spec_extent().x),
            maxy == spec_voxel_clamp(body.spec_extent().y),
            maxz == spec_voxel_clamp(body.spec_extent().z),
            min_voxel_x == minx,
            max_voxel_x == maxx,
            min_voxel_y == miny,
            max_voxel_y == maxy,
            min_voxel_z == minz,
            max_voxel_z == maxz,
            max_voxel_x < 8388608,
            max_voxel_y < 8388608,
            max_voxel_z < 8388608,
            minx <= x as int,
            x as int <= maxx + 1 || x as int == minx,
            forall|xi: int, yi: int, zi: int|
                minx <= xi < x && miny <= yi <= maxy && minz <= zi <= maxz
                    ==> #[trigger] voxels.spec_voxel_at(xi, yi, zi) == 0,
        decreases maxx + 1 - x,
    {
        let mut y = min_voxel_y;
        while y <= max_voxel_y
            invariant
                voxels.wf(),
                body.spec_has_collision(),
                minx == spec_voxel_clamp(body.position.x),
                miny == spec_voxel_clamp(body.position.y),
                minz == spec_voxel_clamp(body.position.z),
                maxx == spec_voxel_clamp(body.spec_extent().x),
                maxy == spec_voxel_clamp(body.spec_extent().y),
                maxz == spec_voxel_clamp(body.spec_extent().z),
                minx <= x as int <= maxx,
                min_voxel_y == miny,
                max_voxel_y == maxy,
                min_voxel_z == minz,
                max_voxel_z == maxz,
                max_voxel_y < 8388608,
                max_voxel_z < 8388608,
                miny <= y as int,
                y as int <= maxy + 1 || y as int == miny,
                forall|yi: int, zi: int|
                    miny <= yi < y && minz <= zi <= maxz ==> #[trigger] voxels.spec_voxel_at(
                        x as int,
                        yi,
                        zi,
                    ) == 0,
            decreases maxy + 1 - y,
        {
            let mut z = min_voxel_z;
            while z <= max_voxel_z
                invariant
                    voxels.wf(),
                    body.spec_has_collision(),
                    minx == spec_voxel_clamp(body.position.x),
                    miny == spec_voxel_clamp(body.position.y),
                    minz == spec_voxel_clamp(body.position.z),
                    maxx == spec_voxel_clamp(body.spec_extent().x),
                    maxy == spec_voxel_clamp(body.spec_extent().y),
                    maxz == spec_voxel_clamp(body.spec_extent().z),
                    minx <= x as int <= maxx,
                    miny <= y as int <= maxy,
                    min_voxel_z == minz,
                    max_voxel_z == maxz,
                    max_voxel_z < 8388608,
                    minz <= z as int,
                    z as int <= maxz + 1 || z as int == minz,
                    forall|zi: int|
                        minz <= zi < z ==> #[trigger] voxels.spec_voxel_at(x as int, y as int, zi)
                            == 0,
                decreases maxz + 1 - z,
            {
                if voxels.get_voxel(Vec3 { x, y, z }) != 0 {
                    proof {
                        assert(voxels.spec_voxel_at(x as int, y as int, z as int) != 0);
                    }
                    return true;
                }
                z += 1;
            }
            y += 1;
        }
        x += 1;
    }
    false
}

/// The one-epsilon step value for a direction: `-epsilon` for a negative
/// velocity, `epsilon` otherwise.
pub open spec fn spec_step_dir(negative: bool) -> Fixed {
    if negative {
        Fixed { negative: true, whole: 0, fraction: 1 }
    } else {
        Fixed { negative: false, whole: 0, fraction: 1 }
    }
}

/// The body after up to `fuel` one-epsilon steps along an axis: stepping
/// stops early at the first step whose new position collides; that step is
/// rolled back, the velocity on the axis is zeroed, and on the Y axis the
/// body is marked as on ground.
pub open spec fn spec_axis_run(
    b: PhysicsBody,
    axis: Axis,
    dir: Fixed,
    fuel: nat,
    chunk: VoxelChunk,
) -> PhysicsBody
    decreases fuel,
{
    if fuel == 0 {
        b
    } else {
        let stepped = PhysicsBody {
            position: b.position.spec_with_axis(axis, spec_add(b.position.spec_axis(axis), dir)),
            ..b
        };
        if spec_collides(stepped, chunk) {
            PhysicsBody {
                velocity: b.velocity.spec_with_axis(axis, Fixed::spec_zero()),
                is_on_ground: if axis == Axis::Y {
                    true
                } else {
                    b.is_on_ground
                },
                ..b
            }
        } else {
            spec_axis_run(stepped, axis, dir, (fuel - 1) as nat, chunk)
        }
    }
}

/// The body after one axis of the tick is resolved: as many one-epsilon
/// steps as the velocity on that axis counts, in its direction.
pub open spec fn spec_axis_resolve(b: PhysicsBody, axis: Axis, chunk: VoxelChunk) -> PhysicsBody {
    let v = b.velocity.spec_axis(axis);
    spec_axis_run(b, axis, spec_step_dir(v.negative), v.mag() as nat, chunk)
}

/// The body after one whole tick: the on-ground flag reset, gravity folded
/// into the velocity, then the axes resolved in the order X, Y, Z.
pub open spec fn spec_tick_body(b: PhysicsBody, gravity: Vec3<Fixed>, chunk: VoxelChunk) -> PhysicsBody {
    let b0 = PhysicsBody {
        velocity: spec_vec3_add(b.velocity, gravity),
        is_on_ground: false,
        ..b
    };
    let b1 = spec_axis_resolve(b0, Axis::X, chunk);
    let b2 = spec_axis_resolve(b1, Axis::Y, chunk);
    spec_axis_resolve(b2, Axis::Z, chunk)
}

/// An axis of a body can be resolved without leaving the representable
/// range: the full travel stays representable, and, when the body has a
/// collision box, so does every box extent met along the way.
pub open spec fn spec_axis_ready(b: PhysicsBody, axis: Axis) -> bool {
    let v = b.velocity.spec_axis(axis);
    let p = b.position.spec_axis(axis);
    &&& b.wf()
    &&& units_in_range(p.units() + v.units())
    &&& (b.spec_has_collision() ==> b.spec_box_fits() && units_in_range(
        p.units() + v.units() + b.collision_size.spec_axis(axis).units() - 1,
    ))
}

/// What `spec_axis_run` preserves and where it can move the body: only the
/// position on the stepped axis changes, by at most `fuel` units towards
/// `dir`; the velocity is kept or zeroed on that axis alone; the on-ground
/// flag can only be raised, and only by a Y-axis collision.
pub proof fn lemma_axis_run_frame(
    b: PhysicsBody,
    axis: Axis,
    dir: Fixed,
    fuel: nat,
    chunk: VoxelChunk,
)
    requires
        b.wf(),
        dir == spec_step_dir(dir.negative),
        units_in_range(
            b.position.spec_axis(axis).units() + (if dir.negative {
                -(fuel as int)
            } else {
                fuel as int
            }),
        ),
    ensures
        ({
            let r = spec_axis_run(b, axis, dir, fuel, chunk);
            &&& r.wf()
            &&& r.collision_size == b.collision_size
            &&& r.position == b.position.spec_with_axis(axis, r.position.spec_axis(axis))
            &&& (if dir.negative {
                b.position.spec_axis(axis).units() - fuel <= r.position.spec_axis(axis).units()
                    <= b.position.spec_axis(axis).units()
            } else {
                b.position.spec_axis(axis).units() <= r.position.spec_axis(axis).units()
                    <= b.position.spec_axis(axis).units() + fuel
            })
            &&& (r.velocity == b.velocity || r.velocity == b.velocity.spec_with_axis(
                axis,
                Fixed::spec_zero(),
            ))
            &&& (r.is_on_ground == b.is_on_ground || (axis == Axis::Y && r.is_on_ground))
        }),
    decreases fuel,
{
    if fuel == 0 {
    } else {
        let p = b.position.spec_axis(axis);
        let du: int = if dir.negative { -1 } else { 1 };
        lemma_from_units_val(p.units() + du, p.negative);
        let stepped = PhysicsBody {
            position: b.position.spec_with_axis(axis, spec_add(p, dir)),
            ..b
        };
        if spec_collides(stepped, chunk) {
        } else {
            lemma_axis_run_frame(stepped, axis, dir, (fuel - 1) as nat, chunk);
        }
    }
}

/// The whole tick of one body can be resolved without leaving the
/// representable range: the gravity-updated velocity, the full travel on
/// each axis, and, when the body has a collision box, every box extent met
/// along the way, are representable counts of 1/256 units.
pub open spec fn spec_tick_ready(b: PhysicsBody, gravity: Vec3<Fixed>) -> bool {
    let v = spec_vec3_add(b.velocity, gravity);
    &&& b.wf()
    &&& vec3_wf(gravity)
    &&& units_in_range(b.velocity.x.units() + gravity.x.units())
    &&& units_in_range(b.velocity.y.units() + gravity.y.units())
    &&& units_in_range(b.velocity.z.units() + gravity.z.units())
    &&& units_in_range(b.position.x.units() + v.x.units())
    &&& units_in_range(b.position.y.units() + v.y.units())
    &&& units_in_range(b.position.z.units() + v.z.units())
    &&& (b.spec_has_collision() ==> {
        &&& units_in_range(b.collision_size.x.units() - 1)
        &&& units_in_range(b.collision_size.y.units() - 1)
        &&& units_in_range(b.collision_size.z.units() - 1)
        &&& units_in_range(b.position.x.units() + b.collision_size.x.units() - 1)
        &&& units_in_range(b.position.y.units() + b.collision_size.y.units() - 1)
        &&& units_in_range(b.position.z.units() + b.collision_size.z.units() - 1)
        &&& units_in_range(b.position.x.units() + v.x.units() + b.collision_size.x.units() - 1)
        &&& units_in_range(b.position.y.units() + v.y.units() + b.collision_size.y.units() - 1)
        &&& units_in_range(b.position.z.units() + v.z.units() + b.collision_size.z.units() - 1)
    })
}

/// Advance the body along one axis, one epsilon at a time, up to the count
/// its velocity holds, stopping at the first colliding step.
fn resolve_axis(body: &mut PhysicsBody, axis: Axis, voxels: &VoxelChunk)
    requires
        voxels.wf(),
        spec_axis_ready(*old(body), axis),
    ensures
        *final(body) == spec_axis_resolve(*old(body), axis, *voxels),
{
    let ghost b0 = *body;
    let v = body.velocity.axis(axis);
    let n = v.epsilons();
    let neg = v.is_negative();
    let dir = if neg {
        Fixed::from_parts(true, 0, 1)
    } else {
        Fixed::from_parts(false, 0, 1)
    };
    let mut i: u32 = 0;
    let mut done = false;
    while i < n && !done
        invariant
            voxels.wf(),
            spec_axis_ready(b0, axis),
            v == b0.velocity.spec_axis(axis),
            v.wf(),
            n == v.mag(),
            neg == v.negative,
            dir == spec_step_dir(neg),
            i <= n,
            !done ==> ({
                &&& body.collision_size == b0.collision_size
                &&& body.velocity == b0.velocity
                &&& body.is_on_ground == b0.is_on_ground
                &&& body.position == b0.position.spec_with_axis(
                    axis,
                    body.position.spec_axis(axis),
                )
                &&& body.position.spec_axis(axis).wf()
                &&& body.position.spec_axis(axis).units() == b0.position.spec_axis(axis).units()
                    + (if neg {
                    -(i as int)
                } else {
                    i as int
                })
                &&& spec_axis_resolve(b0, axis, *voxels) == spec_axis_run(
                    *body,
                    axis,
                    dir,
                    (n - i) as nat,
                    *voxels,
                )
            }),
            done ==> *body == spec_axis_resolve(b0, axis, *voxels),
        decreases n - i + (if done { 0int } else { 1int }),
    {
        let ghost pre = *body;
        let previous = body.position.axis(axis);
        proof {
            let p0 = b0.position.spec_axis(axis);
            let du: int = if neg { -1int } else { 1int };
            assert(v.units() == (if neg { -(n as int) } else { n as int }));
            assert(units_in_range(p0.units() + du * ((i + 1) as int))) by {
                assert(du * ((i + 1) as int) == (if neg { -((i + 1) as int) } else { (i + 1) as int }))
                    by (nonlinear_arith)
                    requires
                        du == (if neg { -1int } else { 1int }),
                ;
            }
            lemma_from_units_val(previous.units() + dir.units(), previous.negative);
        }
        let stepped_value = previous + dir;
        body.position.set_axis(axis, stepped_value);
        proof {
            if pre.spec_has_collision() {
                assert(body.spec_box_fits());
            }
        }
        if is_body_colliding_with_voxels(body, voxels) {
            body.position.set_axis(axis, previous);
            body.velocity.set_axis(axis, Fixed::zero());
            if axis == Axis::Y {
                body.is_on_ground = true;
            }
            done = true;
            proof {
                assert(body.position == pre.position);
                assert(*body == (PhysicsBody {
                    velocity: pre.velocity.spec_with_axis(axis, Fixed::spec_zero()),
                    is_on_ground: if axis == Axis::Y {
                        true
                    } else {
                        pre.is_on_ground
                    },
                    ..pre
                }));
            }
        } else {
            i += 1;
        }
    }
}

/// The readiness of every axis follows from the tick-wide room of the body
/// once gravity is folded in, and survives the earlier axes' movement.
proof fn lemma_tick_axes_ready(b: PhysicsBody, gravity: Vec3<Fixed>, chunk: VoxelChunk)
    requires
        spec_tick_ready(b, gravity),
    ensures
        ({
            let bg = PhysicsBody {
                velocity: spec_vec3_add(b.velocity, gravity),
                is_on_ground: false,
                ..b
            };
            let b1 = spec_axis_resolve(bg, Axis::X, chunk);
            let b2 = spec_axis_resolve(b1, Axis::Y, chunk);
            &&& bg.wf()
            &&& spec_axis_ready(bg, Axis::X)
            &&& spec_axis_ready(b1, Axis::Y)
            &&& spec_axis_ready(b2, Axis::Z)
        }),
{
    lemma_from_units_val(b.velocity.x.units() + gravity.x.units(), b.velocity.x.negative);
    lemma_from_units_val(b.velocity.y.units() + gravity.y.units(), b.velocity.y.negative);
    lemma_from_units_val(b.velocity.z.units() + gravity.z.units(), b.velocity.z.negative);
    let bg = PhysicsBody {
        velocity: spec_vec3_add(b.velocity, gravity),
        is_on_ground: false,
        ..b
    };
    let vx = bg.velocity.x;
    let vy = bg.velocity.y;
    let vz = bg.velocity.z;
    lemma_axis_run_frame(bg, Axis::X, spec_step_dir(vx.negative), vx.mag() as nat, chunk);
    let b1 = spec_axis_resolve(bg, Axis::X, chunk);
    assert(vx.units() == (if vx.negative { -(vx.mag() as nat) as int } else { vx.mag() as nat as int }));
    assert(b1.velocity.y == vy && b1.velocity.z == vz);
    assert(b1.position.y == bg.position.y && b1.position.z == bg.position.z);
    lemma_axis_run_frame(b1, Axis::Y, spec_step_dir(vy.negative), vy.mag() as nat, chunk);
    let b2 = spec_axis_resolve(b1, Axis::Y, chunk);
    assert(b2.velocity.z == vz);
    assert(b2.position.x == b1.position.x && b2.position.z == b1.position.z);
}

/// Advance one body by one tick: reset the on-ground flag, fold gravity
/// into the velocity, then resolve the axes in the order X, Y, Z.
fn tick_one(body: &mut PhysicsBody, gravity: Vec3<Fixed>, voxels: &VoxelChunk)
    requires
        voxels.wf(),
        spec_tick_ready(*old(body), gravity),
    ensures
        *final(body) == spec_tick_body(*old(body), gravity, *voxels),
{
    let ghost b = *body;
    proof {
        lemma_tick_axes_ready(b, gravity, *voxels);
    }
    body.is_on_ground = false;
    body.velocity = add_vec_to_vec(body.velocity, gravity);
    resolve_axis(body, Axis::X, voxels);
    resolve_axis(body, Axis::Y, voxels);
    resolve_axis(body, Axis::Z, voxels);
}

/// Advance every body by one tick against a shared, unchanged grid. Bodies
/// are resolved independently, each exactly as `spec_tick_body` describes.
pub fn physics_tick(config: &PhysicsConfig, bodies: &mut Vec<PhysicsBody>, voxels: &VoxelChunk)
    requires
        voxels.wf(),
        forall|i: int|
            0 <= i < old(bodies).len() ==> spec_tick_ready(
                #[trigger] old(bodies)[i],
                config.gravity,
            ),
    ensures
        final(bodies).len() == old(bodies).len(),
        forall|i: int|
            0 <= i < old(bodies).len() ==> #[trigger] final(bodies)[i] == spec_tick_body(
                old(bodies)[i],
                config.gravity,
                *voxels,
            ),
{
    let mut idx: usize = 0;
    while idx < bodies.len()
        invariant
            voxels.wf(),
            bodies.len() == old(bodies).len(),
            idx <= bodies.len(),
            forall|i: int|
                0 <= i < old(bodies).len() ==> spec_tick_ready(
                    #[trigger] old(bodies)[i],
                    config.gravity,
                ),
            forall|i: int| idx <= i < bodies.len() ==> bodies[i] == old(bodies)[i],
            forall|i: int|
                0 <= i < idx ==> #[trigger] bodies[i] == spec_tick_body(
                    old(bodies)[i],
                    config.gravity,
                    *voxels,
                ),
        decreases bodies.len() - idx,
    {
        let mut body = bodies[idx];
        tick_one(&mut body, config.gravity, voxels);
        bodies[idx] = body;
        idx += 1;
    }
}

} // verus!
