use voxel_physics::array_3d::Array3D;
use voxel_physics::vec3::Vec3;

#[test]
fn test_create_array() {
    let a = Array3D::new(Vec3::new(3, 4, 5));
    assert_eq!(Vec3::new(3, 4, 5), a.size);
    assert_eq!(60, a.data.len());
}

#[test]
fn test_coord_to_index() {
    let a = Array3D::new(Vec3::new(5, 4, 3));
    assert_eq!(0, a.coord_to_index(Vec3::new(0, 0, 0)));
    assert_eq!(33, a.coord_to_index(Vec3::new(3, 2, 1)));
    assert_eq!(59, a.coord_to_index(Vec3::new(4, 3, 2)));
}

#[test]
fn test_index_to_coord() {
    let a = Array3D::new(Vec3::new(5, 4, 3));
    assert_eq!(Vec3::new(0, 0, 0), a.index_to_coord(0));
    assert_eq!(Vec3::new(3, 2, 1), a.index_to_coord(33));
    assert_eq!(Vec3::new(4, 3, 2), a.index_to_coord(59));
}

#[test]
fn test_out_of_bounds() {
    let a = Array3D::new(Vec3::new(2, 2, 2));
    assert!(!a.is_out_of_bounds(Vec3::new(0, 0, 0)));
    assert!(a.is_out_of_bounds(Vec3::new(0, 0, 2)));
    assert!(a.is_out_of_bounds(Vec3::new(0, 2, 0)));
    assert!(a.is_out_of_bounds(Vec3::new(2, 0, 0)));

    assert!(!a.is_i32_out_of_bounds(Vec3::new(0, 0, 0)));
    assert!(a.is_i32_out_of_bounds(Vec3::new(0, 0, 2)));
    assert!(a.is_i32_out_of_bounds(Vec3::new(0, 2, 0)));
    assert!(a.is_i32_out_of_bounds(Vec3::new(2, 0, 0)));
    assert!(a.is_i32_out_of_bounds(Vec3::new(-1, 0, 0)));
    assert!(a.is_i32_out_of_bounds(Vec3::new(0, -1, 0)));
    assert!(a.is_i32_out_of_bounds(Vec3::new(0, 0, -1)));
}

#[test]
fn test_set_and_get() {
    let mut a = Array3D::new(Vec3::new(3, 3, 3));
    a.set(Vec3::new(0, 0, 0), 4);
    assert_eq!(4, a.get(Vec3::new(0, 0, 0)));

    a.set_i32(Vec3::new(0, 1, 2), 9);
    assert_eq!(9, a.get_i32(Vec3::new(0, 1, 2)));
}

#[test]
fn test_new_array_is_zeroed() {
    let a = Array3D::new(Vec3::new(2, 3, 4));
    for x in 0..2 {
        for y in 0..3 {
            for z in 0..4 {
                assert_eq!(0, a.get(Vec3::new(x, y, z)));
            }
        }
    }
}

#[test]
fn test_index_round_trip() {
    let a = Array3D::new(Vec3::new(5, 4, 3));
    for index in 0..60 {
        assert_eq!(index, a.coord_to_index(a.index_to_coord(index)));
    }
}
