use percentage_rs::{Percent, Percentage};

#[test]
fn test_contructor() {
    let a = Percentage::new(50);
    assert!((100 * a) as f32 == 50.0 as f32);
}

#[test]
fn test_percent_trait() {
    assert!(50.0 as f32 == (100 * 50.percent()) as f32);
}

#[test]
fn test_eq() {
    let a = Percentage::new(50);
    let b = 50.percent();
    assert!(a == b, "a: {} -- b: {}", a.to_string(), b.to_string());
}

#[test]
fn test_add_percentage() {
    let a = 100.percent() + 1.percent();
    assert!(a == 101.percent());
}

#[test]
fn test_add_number() {
    let a = 49.percent();
    let b: i32 = 1;
    assert!(
        149.percent() == 1 + a,
        "a: {} + b: {} = c: {}",
        a.to_string(),
        b,
        (b + a).to_string()
    );
}

#[test]
fn test_print() {
    let a = 50.percent().to_string();
    assert!(a == "50%", "a: {}", a);
}

#[test]
fn hundred_times_percent_gives_number_back() {
    for n in [0i64, 1, 7, 50, 1234, -3, -1000, 99_999_999] {
        assert_eq!(100i64 * n.percent(), n);
    }
    assert_eq!(100u8 * 37u8.percent(), 37u8);
}

#[test]
fn percentages_add_like_numbers() {
    assert_eq!(30.percent() + 12.percent(), 42.percent());
    assert_eq!((-5).percent() + 12.percent(), 7.percent());
    assert_eq!((-5i64).percent() + 12i64.percent(), 7i64.percent());
}

#[test]
fn equal_percentages_come_from_equal_numbers() {
    assert_eq!(7u16.percent(), 7i128.percent());
    assert_ne!(7.percent(), 8.percent());
    assert_ne!(0.percent(), 1.percent());
}

#[test]
fn renders_whole_and_fractional_percentages() {
    assert_eq!(0.percent().to_string(), "0%");
    assert_eq!(Percentage::default().to_string(), "0%");
    assert_eq!(150.percent().to_string(), "150%");
    assert_eq!((-20).percent().to_string(), "-20%");
    assert_eq!(Percentage::from_basis_points(4901).to_string(), "49.01%");
    assert_eq!(Percentage::from_basis_points(4950).to_string(), "49.5%");
    assert_eq!(Percentage::from_basis_points(-50).to_string(), "-0.5%");
}

#[test]
fn fifty_percent_of_1234_is_617() {
    assert_eq!(1234 * 50.percent(), 617);
    assert_eq!(1234u64 * 50.percent(), 617u64);
}

#[test]
fn multiply_in_place_halves() {
    let mut x: i32 = 1235;
    x *= 50.percent();
    assert_eq!(x, 617);
    let mut y: i8 = -7;
    y *= 50.percent();
    assert_eq!(y, -3);
    let mut z: u128 = u128::MAX;
    z *= 50.percent();
    assert_eq!(z, u128::MAX / 2);
}

#[test]
fn adding_a_number_adds_wholes() {
    assert_eq!(1 + 49.percent(), 149.percent());
    assert_eq!(-1 + 49.percent(), (-51).percent());
    let mut p = 25.percent();
    p += 2u8;
    assert_eq!(p, 225.percent());
    p += 25.percent();
    assert_eq!(p, 250.percent());
}

#[test]
fn parts_round_trip() {
    for p in [
        0.percent(),
        Percentage::from_basis_points(4901),
        Percentage::from_basis_points(-50),
        u128::MAX.percent(),
        i128::MIN.percent(),
    ] {
        let (negative, whole, ten_thousandths) = p.parts();
        assert_eq!(Percentage::from_parts(negative, whole, ten_thousandths), p);
    }
    assert_eq!(50.percent().parts(), (false, 0, 5000));
    assert_eq!((-250).percent().parts(), (true, 2, 5000));
    assert_eq!(Percentage::from_parts(false, 1, 12345), Percentage::from_parts(false, 2, 2345));
}

#[test]
fn percentage_of_percentage() {
    assert_eq!(50.percent() * 50.percent(), 25.percent());
    assert_eq!(10.percent() * 15.percent(), Percentage::from_basis_points(150));
    assert_eq!((-10).percent() * 15.percent(), Percentage::from_basis_points(-150));
    assert_eq!(
        Percentage::from_basis_points(3) * Percentage::from_basis_points(3333),
        Percentage::from_basis_points(0)
    );
    let mut p = 200.percent();
    p *= 50.percent();
    assert_eq!(p, 100.percent());
}

#[test]
fn results_saturate_at_the_bounds() {
    let top = Percentage::from_parts(false, u128::MAX, 9999);
    let bottom = Percentage::from_parts(true, u128::MAX, 9999);
    assert_eq!(top + 1.percent(), top);
    assert_eq!(bottom + (-1).percent(), bottom);
    assert_eq!(u128::MAX + top, top);
    assert_eq!(top * top, top);
    assert_eq!(top * bottom, bottom);
    assert_eq!(Percentage::from_parts(false, u128::MAX, 10000), top);
    assert_eq!(200u8 * 200.percent(), u8::MAX);
    assert_eq!(i8::MIN * 200.percent(), i8::MIN);
    assert_eq!(5u32 * (-50).percent(), 0);
    assert_eq!(u128::MAX * 300.percent(), u128::MAX);
    assert_eq!(i128::MIN * 100.percent(), i128::MIN);
    assert_eq!(u128::MAX.percent().of(false, u128::MAX), None);
}

#[test]
fn every_128_bit_number_is_held_exactly() {
    assert_eq!(100i128 * i128::MAX.percent(), i128::MAX);
    assert_eq!(100i128 * i128::MIN.percent(), i128::MIN);
    assert_eq!(100u128 * u128::MAX.percent(), u128::MAX);
    let n: i128 = 1_000_000_000_000_000_000_000_000_000_000_000;
    assert_eq!(100i128 * n.percent(), n);
    assert_ne!(Percentage::new(n), Percentage::new(n + 1));
    assert_eq!(n.percent() + (1 - n).percent(), 1.percent());
    assert_eq!(Percentage::new(n).parts(), (false, n as u128 / 100, 0));
    assert_eq!((n / 100) + 0.percent(), Percentage::from_parts(false, n as u128 / 100, 0));
    assert_eq!(u128::MAX + 0.percent(), Percentage::from_parts(false, u128::MAX, 0));
    assert_eq!(i128::MAX + 1.percent(), Percentage::from_parts(false, i128::MAX as u128, 100));
}

#[test]
fn exact_product_of_a_number() {
    assert_eq!(50.percent().of(false, 3), Some((false, 1, 5000)));
    assert_eq!(50.percent().of(true, 3), Some((true, 1, 5000)));
    assert_eq!((-1).percent().of(false, 1234), Some((true, 12, 3400)));
    assert_eq!(Percentage::from_basis_points(1).of(false, 1), Some((false, 0, 1)));
    assert_eq!(50.percent().of(false, u128::MAX), Some((false, u128::MAX / 2, 5000)));
}

#[test]
fn new_matches_percent_for_every_width() {
    assert_eq!(Percentage::new(5usize), 5u8.percent());
    assert_eq!(Percentage::new(-5isize), (-5i16).percent());
    assert_eq!(Percentage::new(5u32), 5i64.percent());
    assert_eq!(Percentage::new(5u128), 5u64.percent());
    assert_eq!(Percentage::new(-5i8), (-5i32).percent());
}

#[test]
fn large_64_bit_numbers_are_held_exactly() {
    let n: i64 = 100_000_000_000_000_000;
    assert_eq!(100i64 * n.percent(), n);
    assert_eq!(100i64 * i64::MAX.percent(), i64::MAX);
    assert_eq!(100i64 * i64::MIN.percent(), i64::MIN);
    assert_eq!(100u64 * u64::MAX.percent(), u64::MAX);
    let b: i64 = 1 - n;
    assert_eq!(n.percent() + b.percent(), (n + b).percent());
    assert_eq!((n + b).percent(), 1.percent());
    assert_ne!(n.percent(), (n + 1).percent());
    assert_eq!(Percentage::new(n).parts(), (false, 1_000_000_000_000_000, 0));
    assert_eq!(u64::MAX + 0.percent(), Percentage::from_parts(false, u64::MAX as u128, 0));
}
