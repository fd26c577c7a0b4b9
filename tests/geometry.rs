use crankshaft::geometry::WheelGeometry;

#[test]
fn tooth_counts() {
    assert_eq!(WheelGeometry::ThirtySixMinusOne.expected_tooth_count(), 36);
    assert_eq!(WheelGeometry::ThirtySixMinusThree.expected_tooth_count(), 36);
    assert_eq!(WheelGeometry::ThirtySixMinusOne.missing_teeth(), 1);
    assert_eq!(WheelGeometry::ThirtySixMinusThree.missing_teeth(), 3);
}

#[test]
fn double_interval_is_a_gap() {
    let g = WheelGeometry::ThirtySixMinusOne;
    assert!(g.is_plausible_gap(1340, 670));
    assert!(WheelGeometry::ThirtySixMinusThree.is_plausible_gap(1340, 670));
}

#[test]
fn slightly_long_interval_is_no_gap() {
    let g = WheelGeometry::ThirtySixMinusOne;
    assert!(!g.is_plausible_gap(737, 670));
}

#[test]
fn five_fold_interval_is_no_gap() {
    let g = WheelGeometry::ThirtySixMinusOne;
    assert!(!g.is_plausible_gap(3350, 670));
}

#[test]
fn gap_band_ends_are_included() {
    let g = WheelGeometry::ThirtySixMinusOne;
    assert!(g.is_plausible_gap(1000, 666));
    assert!(g.is_plausible_gap(999, 666));
    assert!(!g.is_plausible_gap(998, 666));
    assert!(g.is_plausible_gap(1665, 666));
    assert!(!g.is_plausible_gap(1666, 666));
}

#[test]
fn zero_average_fits_no_gap() {
    let g = WheelGeometry::ThirtySixMinusOne;
    assert!(!g.is_plausible_gap(0, 0));
    assert!(!g.is_plausible_gap(100, 0));
}

#[test]
fn large_values_do_not_overflow() {
    let g = WheelGeometry::ThirtySixMinusOne;
    assert!(g.is_plausible_gap(u32::MAX, u32::MAX / 2));
    assert!(!g.is_plausible_gap(u32::MAX, u32::MAX));
}
