use salazzle::stat_stage::StatStage;

#[test]
fn test_integer_conversion() {
    assert_eq!(StatStage::N6.value(), -6i8);
    assert_eq!(StatStage::N5.value(), -5i8);
    assert_eq!(StatStage::N4.value(), -4i8);
    assert_eq!(StatStage::N3.value(), -3i8);
    assert_eq!(StatStage::N2.value(), -2i8);
    assert_eq!(StatStage::N1.value(), -1i8);
    assert_eq!(StatStage::Z0.value(), 0i8);
    assert_eq!(StatStage::P1.value(), 1i8);
    assert_eq!(StatStage::P2.value(), 2i8);
    assert_eq!(StatStage::P3.value(), 3i8);
    assert_eq!(StatStage::P4.value(), 4i8);
    assert_eq!(StatStage::P5.value(), 5i8);
    assert_eq!(StatStage::P6.value(), 6i8);
}

#[test]
fn stage_addition_saturates() {
    assert_eq!(StatStage::P4 + StatStage::P4, StatStage::P6);
    assert_eq!(StatStage::N4 + StatStage::N5, StatStage::N6);
    assert_eq!(StatStage::P6 + StatStage::P6, StatStage::P6);
    assert_eq!(StatStage::N6 + StatStage::N6, StatStage::N6);
    assert_eq!(StatStage::P2 + StatStage::N5, StatStage::N3);
    assert_eq!(StatStage::P3 + StatStage::P3, StatStage::P6);
    assert_eq!(StatStage::Z0 + StatStage::N1, StatStage::N1);
}

#[test]
fn stage_zero_is_neutral() {
    assert_eq!(StatStage::Z0.normal_ratio(), (2, 2));
    assert_eq!(StatStage::Z0.accuracy_ratio(), (3, 3));
}

#[test]
fn stage_ratios() {
    assert_eq!(StatStage::N6.normal_ratio(), (2, 8));
    assert_eq!(StatStage::N5.normal_ratio(), (2, 7));
    assert_eq!(StatStage::N1.normal_ratio(), (2, 3));
    assert_eq!(StatStage::P1.normal_ratio(), (3, 2));
    assert_eq!(StatStage::P6.normal_ratio(), (8, 2));
    assert_eq!(StatStage::N6.accuracy_ratio(), (3, 9));
    assert_eq!(StatStage::N4.accuracy_ratio(), (3, 7));
    assert_eq!(StatStage::N3.accuracy_ratio(), (3, 6));
    assert_eq!(StatStage::P6.accuracy_ratio(), (9, 3));
}
