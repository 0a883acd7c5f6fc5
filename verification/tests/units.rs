use ui_events_winit::units::{PhysicalPoint, Point, ScaleFactor, UNIT};

#[test]
fn a_scale_factor_is_never_zero() {
    assert_eq!(ScaleFactor::new(0), None);
    assert_eq!(ScaleFactor::new(1).map(|s| s.thousandths()), Some(1));
    assert_eq!(ScaleFactor::new(2_500).map(|s| s.thousandths()), Some(2_500));
    assert_eq!(ScaleFactor::new(u32::MAX).map(|s| s.thousandths()), Some(u32::MAX));
}

#[test]
fn the_unit_scale_factor_is_one() {
    assert_eq!(UNIT, 1_000);
    assert_eq!(ScaleFactor::one().thousandths(), 1_000);
    assert_eq!(Some(ScaleFactor::one()), ScaleFactor::new(1_000));
}

#[test]
fn at_the_unit_scale_factor_nothing_changes() {
    let one = ScaleFactor::one();
    for v in [0, 1, -1, 999, -999, 1_000, 123_456, -123_456, i32::MAX, i32::MIN] {
        assert_eq!(one.to_logical(v), v as i64);
    }
    let p = PhysicalPoint { x: 640_500, y: -480_250 };
    assert_eq!(p.to_logical(one), Point { x: 640_500, y: -480_250 });
}

#[test]
fn lengths_are_divided_by_the_scale_factor() {
    let two = ScaleFactor::new(2_000).unwrap();
    assert_eq!(two.to_logical(0), 0);
    assert_eq!(two.to_logical(101_000), 50_500);
    assert_eq!(two.to_logical(-101_000), -50_500);
    let one_and_a_quarter = ScaleFactor::new(1_250).unwrap();
    assert_eq!(one_and_a_quarter.to_logical(100_000), 80_000);
    let half = ScaleFactor::new(500).unwrap();
    assert_eq!(half.to_logical(7_001), 14_002);
    assert_eq!(half.to_logical(i32::MAX), 4_294_967_294);
    assert_eq!(half.to_logical(i32::MIN), -4_294_967_296);
    let p = PhysicalPoint { x: 30_000, y: -45_000 };
    assert_eq!(p.to_logical(two), Point { x: 15_000, y: -22_500 });
}

#[test]
fn quotients_are_rounded_down() {
    let three = ScaleFactor::new(3_000).unwrap();
    assert_eq!(three.to_logical(1_000), 333);
    assert_eq!(three.to_logical(2_000), 666);
    assert_eq!(three.to_logical(-1_000), -334);
    assert_eq!(three.to_logical(-2_000), -667);
    assert_eq!(three.to_logical(-3_000), -1_000);
    assert_eq!(three.to_logical(1), 0);
    assert_eq!(three.to_logical(2), 0);
    assert_eq!(three.to_logical(3), 1);
    assert_eq!(three.to_logical(-1), -1);
    assert_eq!(three.to_logical(-3), -1);
    assert_eq!(three.to_logical(-4), -2);
    let huge = ScaleFactor::new(u32::MAX).unwrap();
    assert_eq!(huge.to_logical(i32::MAX), 499);
    assert_eq!(huge.to_logical(i32::MIN), -501);
    assert_eq!(huge.to_logical(-1), -1);
    let tiny = ScaleFactor::new(1).unwrap();
    assert_eq!(tiny.to_logical(i32::MAX), 2_147_483_647_000);
    assert_eq!(tiny.to_logical(i32::MIN), -2_147_483_648_000);
}

#[test]
fn the_logical_length_is_the_greatest_that_fits() {
    for scale in [1u32, 3, 999, 1_000, 1_001, 1_250, 2_000, 7_777, u32::MAX] {
        let factor = ScaleFactor::new(scale).unwrap();
        for physical in [i32::MIN, -100_001, -1_000, -1, 0, 1, 999, 100_001, i32::MAX] {
            let logical = factor.to_logical(physical) as i128;
            let exact = physical as i128 * 1_000;
            assert!(logical * scale as i128 <= exact);
            assert!(exact < (logical + 1) * scale as i128);
        }
    }
}
