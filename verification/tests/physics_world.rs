use voxel_physics::fixed_point::Fixed;
use voxel_physics::physics_world::{physics_tick, physics_to_voxel, PhysicsBody, PhysicsConfig};
use voxel_physics::vec3::Vec3;
use voxel_physics::voxel::VoxelChunk;

fn zero_vector() -> Vec3<Fixed> {
    Vec3::new(Fixed::zero(), Fixed::zero(), Fixed::zero())
}

#[test]
fn basic_movement() {
    let config = PhysicsConfig::default();
    let mut bodies = vec![PhysicsBody::new()];
    let voxel_chunk = VoxelChunk::new();

    assert_eq!(zero_vector(), bodies[0].position);
    assert_eq!(zero_vector(), bodies[0].velocity);

    bodies[0].velocity.x = Fixed::new(1, 0);
    physics_tick(&config, &mut bodies, &voxel_chunk);
    assert_eq!(Vec3::new(Fixed::new(1, 0), Fixed::zero(), Fixed::zero()), bodies[0].position);

    bodies[0].velocity.x = Fixed::zero();
    bodies[0].velocity.y = Fixed::new(0, 128);
    physics_tick(&config, &mut bodies, &voxel_chunk);
    assert_eq!(Vec3::new(Fixed::new(1, 0), Fixed::new(0, 128), Fixed::zero()), bodies[0].position);
}

#[test]
fn gravity() {
    let config = PhysicsConfig {
        gravity: Vec3::new(Fixed::zero(), Fixed::new(-2, 0), Fixed::zero()),
    };
    let mut bodies = vec![PhysicsBody::new()];
    let voxel_chunk = VoxelChunk::new();

    let ys = [-2, -6, -12, -20];
    for &y in ys.iter() {
        physics_tick(&config, &mut bodies, &voxel_chunk);
        assert_eq!(Vec3::new(Fixed::zero(), Fixed::new(y, 0), Fixed::zero()), bodies[0].position);
    }
}

#[test]
fn test_physics_to_voxel() {
    assert_eq!(Some(1), physics_to_voxel(Fixed::new(1, 0)));
    assert_eq!(Some(0), physics_to_voxel(Fixed::new(0, 255)));
    assert_eq!(None, physics_to_voxel(-Fixed::new(0, 1)));
}

#[test]
fn fall_onto_ground() {
    let config = PhysicsConfig {
        gravity: Vec3::new(Fixed::zero(), -Fixed::new(0, 64), Fixed::zero()),
    };
    let mut bodies = vec![PhysicsBody::new()];
    let mut voxel_chunk = VoxelChunk::new();

    bodies[0].position = Vec3::new(Fixed::zero(), Fixed::new(2, 0), Fixed::zero());
    bodies[0].collision_size = Vec3::new(Fixed::new(0, 64), Fixed::new(0, 64), Fixed::new(0, 64));
    voxel_chunk.set_voxel(Vec3::new(0, 0, 0), 1);

    let ys = [Fixed::new(1, 192), Fixed::new(1, 64), Fixed::new(1, 0), Fixed::new(1, 0)];
    for &y in ys.iter() {
        physics_tick(&config, &mut bodies, &voxel_chunk);
        assert_eq!(Vec3::new(Fixed::zero(), y, Fixed::zero()), bodies[0].position);
    }
    assert!(bodies[0].is_on_ground);
    assert_eq!(Fixed::zero(), bodies[0].velocity.y);
}

#[test]
fn run_off_an_edge() {
    let config = PhysicsConfig {
        gravity: Vec3::new(Fixed::zero(), -Fixed::new(0, 64), Fixed::zero()),
    };
    let mut bodies = vec![PhysicsBody::new()];
    let mut voxel_chunk = VoxelChunk::new();

    bodies[0].position = Vec3::new(Fixed::zero(), Fixed::new(1, 0), Fixed::zero());
    bodies[0].velocity = Vec3::new(Fixed::new(0, 86), Fixed::zero(), Fixed::zero());
    bodies[0].collision_size = Vec3::new(Fixed::new(0, 64), Fixed::new(0, 64), Fixed::new(0, 64));
    voxel_chunk.set_voxel(Vec3::new(0, 0, 0), 1);

    let xys = [
        (Fixed::new(0, 86), Fixed::new(1, 0)),
        (Fixed::new(0, 172), Fixed::new(1, 0)),
        (Fixed::new(1, 2), Fixed::new(0, 192)), // Falls off; gravity begins applying
        (Fixed::new(1, 88), Fixed::new(0, 64)),
    ];
    for &(x, y) in xys.iter() {
        physics_tick(&config, &mut bodies, &voxel_chunk);
        assert_eq!(Vec3::new(x, y, Fixed::zero()), bodies[0].position);
    }
}

#[test]
fn run_into_wall() {
    let config = PhysicsConfig::default();
    let mut bodies = vec![PhysicsBody::new()];
    let mut voxel_chunk = VoxelChunk::new();

    bodies[0].collision_size = Vec3::new(Fixed::new(0, 64), Fixed::new(0, 64), Fixed::new(0, 64));
    bodies[0].velocity = Vec3::new(Fixed::new(0, 128), Fixed::zero(), Fixed::new(0, 128));
    voxel_chunk.set_voxel(Vec3::new(2, 0, 1), 1);
    voxel_chunk.set_voxel(Vec3::new(2, 0, 2), 1);
    voxel_chunk.set_voxel(Vec3::new(2, 0, 3), 1);
    voxel_chunk.set_voxel(Vec3::new(1, 0, 3), 1);

    let xzs = [
        (Fixed::new(0, 128), Fixed::new(0, 128)),
        (Fixed::new(1, 0), Fixed::new(1, 0)),
        (Fixed::new(1, 128), Fixed::new(1, 128)),
        (Fixed::new(1, 192), Fixed::new(2, 0)), // Collides with wall and begins sliding.
        (Fixed::new(1, 192), Fixed::new(2, 128)),
        (Fixed::new(1, 192), Fixed::new(2, 192)), // Collides with corner.
        (Fixed::new(1, 192), Fixed::new(2, 192)),
    ];
    for &(x, z) in xzs.iter() {
        physics_tick(&config, &mut bodies, &voxel_chunk);
        assert_eq!(Vec3::new(x, Fixed::zero(), z), bodies[0].position);
    }
}

#[test]
fn resting_on_ground_keeps_flag() {
    // A body resting on a solid voxel under gravity stays put with the
    // on-ground flag raised on every later tick.
    let config = PhysicsConfig {
        gravity: Vec3::new(Fixed::zero(), -Fixed::new(0, 64), Fixed::zero()),
    };
    let mut bodies = vec![PhysicsBody::new()];
    let mut voxel_chunk = VoxelChunk::new();

    bodies[0].position = Vec3::new(Fixed::zero(), Fixed::new(1, 0), Fixed::zero());
    bodies[0].collision_size = Vec3::new(Fixed::new(0, 64), Fixed::new(0, 64), Fixed::new(0, 64));
    voxel_chunk.set_voxel(Vec3::new(0, 0, 0), 1);

    for _ in 0..3 {
        physics_tick(&config, &mut bodies, &voxel_chunk);
        assert_eq!(
            Vec3::new(Fixed::zero(), Fixed::new(1, 0), Fixed::zero()),
            bodies[0].position
        );
        assert!(bodies[0].is_on_ground);
    }
}

#[test]
fn no_collision_box_falls_through() {
    // Without a collision box the body ignores solid voxels entirely.
    let config = PhysicsConfig {
        gravity: Vec3::new(Fixed::zero(), -Fixed::new(1, 0), Fixed::zero()),
    };
    let mut bodies = vec![PhysicsBody::new()];
    let mut voxel_chunk = VoxelChunk::new();

    bodies[0].position = Vec3::new(Fixed::zero(), Fixed::new(2, 0), Fixed::zero());
    voxel_chunk.set_voxel(Vec3::new(0, 0, 0), 1);
    voxel_chunk.set_voxel(Vec3::new(0, 1, 0), 1);

    physics_tick(&config, &mut bodies, &voxel_chunk);
    assert_eq!(Vec3::new(Fixed::zero(), Fixed::new(1, 0), Fixed::zero()), bodies[0].position);
    physics_tick(&config, &mut bodies, &voxel_chunk);
    assert_eq!(Vec3::new(Fixed::zero(), Fixed::new(-1, 0), Fixed::zero()), bodies[0].position);
}

#[test]
fn several_bodies_resolve_independently() {
    let config = PhysicsConfig::default();
    let mut bodies = vec![PhysicsBody::new(), PhysicsBody::new()];
    let voxel_chunk = VoxelChunk::new();

    bodies[0].velocity.x = Fixed::new(1, 0);
    bodies[1].velocity.z = Fixed::new(-2, 0);
    physics_tick(&config, &mut bodies, &voxel_chunk);
    assert_eq!(Vec3::new(Fixed::new(1, 0), Fixed::zero(), Fixed::zero()), bodies[0].position);
    assert_eq!(Vec3::new(Fixed::zero(), Fixed::zero(), Fixed::new(-2, 0)), bodies[1].position);
}
