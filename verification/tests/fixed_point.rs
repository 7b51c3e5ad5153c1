use voxel_physics::fixed_point::{Fixed, DENOMINATOR};

#[test]
fn create_and_unpack() {
    assert_eq!((false, 128, 0), Fixed::new(128, 0).unpack());
    assert_eq!((false, 2, 4), Fixed::new(2, 4).unpack());
    assert_eq!((true, 6, 5), Fixed::new(-6, 5).unpack());
}

#[test]
fn add() {
    assert_eq!(Fixed::new(3, 0), Fixed::new(1, 0) + Fixed::new(2, 0));
    assert_eq!(Fixed::new(100, 10), Fixed::new(99, 0) + Fixed::new(1, 10));
    assert_eq!(Fixed::new(4, 4), Fixed::new(2, 2) + Fixed::new(2, 2));
    assert_eq!(Fixed::new(6, 0), Fixed::new(2, 128) + Fixed::new(3, 128));
    assert_eq!(Fixed::new(10, 11), Fixed::new(2, 255) + Fixed::new(7, 12));
    assert_eq!(Fixed::new(2, 0), Fixed::new(3, 0) + Fixed::new(-1, 0));
    assert_eq!(Fixed::new(-4, 12), Fixed::new(-3, 10) + Fixed::new(-1, 2));
    assert_eq!(Fixed::new(0, 254), Fixed::new(-3, 10) + Fixed::new(4, 8));
    assert_eq!(Fixed::from_parts(true, 0, 246), Fixed::new(-2, 1) + Fixed::new(1, 11));
    assert_eq!(Fixed::new(0, 10), Fixed::new(-2, 1) + Fixed::new(2, 11));
    assert_eq!(Fixed::zero(), Fixed::new(12, 20) + Fixed::new(-12, 20));
}

#[test]
fn epsilon() {
    let mut f = Fixed::zero();
    for _ in 0..DENOMINATOR {
        f += Fixed::epsilon();
    }
    assert_eq!((false, 1, 0), f.unpack());
}

#[test]
fn sub() {
    assert_eq!(Fixed::new(1, 0), Fixed::new(3, 0) - Fixed::new(2, 0));
    assert_eq!(Fixed::new(98, 246), Fixed::new(99, 0) - Fixed::new(0, 10));
    assert_eq!(Fixed::new(0, 0), Fixed::new(2, 2) - Fixed::new(2, 2));
    assert_eq!(Fixed::new(-1, 0), Fixed::new(2, 128) - Fixed::new(3, 128));
    assert_eq!(Fixed::new(-4, 13), Fixed::new(2, 255) - Fixed::new(7, 12));
    assert_eq!(Fixed::new(5, 0), Fixed::new(10, 0) - Fixed::new(5, 0));
    assert_eq!(Fixed::new(-5, 0), Fixed::new(5, 0) - Fixed::new(10, 0));
    assert_eq!(Fixed::new(-15, 0), Fixed::new(-5, 0) - Fixed::new(10, 0));
    assert_eq!(Fixed::new(2, 240), Fixed::new(-4, 5) - Fixed::new(-6, 245));
}

#[test]
fn sub_assign() {
    let mut f = Fixed::new(10, 0);
    f -= Fixed::new(3, 0);
    assert_eq!(Fixed::new(7, 0), f);

    let mut f = Fixed::new(5, 128);
    f -= Fixed::new(2, 64);
    assert_eq!(Fixed::new(3, 64), f);
}

#[test]
fn negate() {
    assert_eq!(Fixed::new(-5, 0), -Fixed::new(5, 0));
    assert_eq!(Fixed::new(5, 0), -Fixed::new(-5, 0));
    assert_eq!(Fixed::new(-2, 128), -Fixed::new(2, 128));
    assert_eq!(Fixed::new(0, 0), -Fixed::zero());
}

#[test]
fn debug_format() {
    assert_eq!("Fixed(+2.128)", Fixed::new(2, 128).debug_string());
    assert_eq!("Fixed(-6.005)", Fixed::new(-6, 5).debug_string());
    assert_eq!("Fixed(+0.000)", Fixed::zero().debug_string());
}

#[test]
fn add_commutes() {
    let pairs = [
        (Fixed::new(1, 7), Fixed::new(2, 250)),
        (Fixed::new(-3, 10), Fixed::new(4, 8)),
        (Fixed::new(-2, 1), Fixed::new(-1, 11)),
        (Fixed::new(0, 255), Fixed::new(0, 1)),
    ];
    for &(a, b) in pairs.iter() {
        assert_eq!(a + b, b + a);
    }
}

#[test]
fn add_opposite_cancels() {
    // A value plus its negation always has zero magnitude; a non-negative
    // operand gives the all-zero representation of zero exactly.
    let a = Fixed::new(12, 20);
    let sum = a + (-a);
    assert_eq!(Fixed::zero(), sum);

    // The reverse order keeps the negative sign flag on a zero magnitude:
    // the two sums are equal in value but not in representation.
    let b = Fixed::new(-12, 20);
    let sum = b + (-b);
    let (negative, whole, fraction) = sum.unpack();
    assert!(negative);
    assert_eq!((0, 0), (whole, fraction));
    assert_ne!(Fixed::zero(), sum);
}

#[test]
fn negative_zero_from_parts() {
    let negative_zero = Fixed::from_parts(true, 0, 0);
    assert_eq!((true, 0, 0), negative_zero.unpack());
    assert_ne!(Fixed::zero(), negative_zero);
    // Negation maps the negative zero onto the all-zero representation,
    // which in turn is a fixed point of negation.
    assert_eq!(Fixed::zero(), -negative_zero);
}

#[test]
fn epsilons_counts_units() {
    assert_eq!(0, Fixed::zero().epsilons());
    assert_eq!(1, Fixed::epsilon().epsilons());
    assert_eq!(256, Fixed::new(1, 0).epsilons());
    assert_eq!(2 * 256 + 128, Fixed::new(2, 128).epsilons());
    assert_eq!(5 * 256 + 3, Fixed::new(-5, 3).epsilons());
}

#[test]
fn is_negative_flag() {
    assert!(!Fixed::zero().is_negative());
    assert!(Fixed::new(-1, 0).is_negative());
    assert!(!Fixed::new(1, 0).is_negative());
    assert!(Fixed::from_parts(true, 0, 0).is_negative());
}

#[test]
fn floor_values() {
    assert_eq!(2, Fixed::new(2, 128).floor_to_i32());
    assert_eq!(2, Fixed::new(2, 0).floor_to_i32());
    assert_eq!(-3, Fixed::new(-2, 128).floor_to_i32());
    assert_eq!(-2, Fixed::new(-2, 0).floor_to_i32());
    assert_eq!(0, Fixed::zero().floor_to_i32());
    assert_eq!(0, Fixed::new(0, 1).floor_to_i32());
    assert_eq!(-1, Fixed::from_parts(true, 0, 1).floor_to_i32());
    assert_eq!(0, Fixed::from_parts(true, 0, 0).floor_to_i32());
}
