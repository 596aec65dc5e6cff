use selene::math::modal_analysis::{
    classify_complex_mode, classify_real_mode, modes_in_report_order, Axis, EigenvalueClass,
    ModeKind,
};

#[test]
fn longitudinal_oscillations_split_by_period() {
    assert_eq!(classify_complex_mode(Axis::Longitudinal, true), ModeKind::ShortPeriod);
    assert_eq!(classify_complex_mode(Axis::Longitudinal, false), ModeKind::Phugoid);
}

#[test]
fn lateral_oscillation_is_dutch_roll() {
    assert_eq!(classify_complex_mode(Axis::Lateral, true), ModeKind::DutchRoll);
    assert_eq!(classify_complex_mode(Axis::Lateral, false), ModeKind::DutchRoll);
}

#[test]
fn real_lateral_modes_by_time_constant() {
    assert_eq!(classify_real_mode(Axis::Lateral, true, true, false), ModeKind::RollSubsidence);
    assert_eq!(classify_real_mode(Axis::Lateral, true, false, true), ModeKind::Spiral);
    assert_eq!(classify_real_mode(Axis::Lateral, true, false, false), ModeKind::Unclassified);
}

#[test]
fn unstable_or_longitudinal_real_modes_are_unclassified() {
    assert_eq!(classify_real_mode(Axis::Lateral, false, true, false), ModeKind::Unclassified);
    assert_eq!(classify_real_mode(Axis::Lateral, false, false, true), ModeKind::Unclassified);
    assert_eq!(classify_real_mode(Axis::Longitudinal, true, true, false), ModeKind::Unclassified);
    assert_eq!(classify_real_mode(Axis::Longitudinal, true, false, true), ModeKind::Unclassified);
}

#[test]
fn oscillatory_modes_come_first_and_conjugates_are_dropped() {
    let classes = vec![
        EigenvalueClass::Aperiodic,
        EigenvalueClass::Oscillatory,
        EigenvalueClass::Conjugate,
        EigenvalueClass::Aperiodic,
        EigenvalueClass::Oscillatory,
        EigenvalueClass::Conjugate,
    ];
    assert_eq!(modes_in_report_order(&classes), vec![1, 4, 0, 3]);
}

#[test]
fn empty_spectrum_reports_no_mode() {
    assert_eq!(modes_in_report_order(&vec![]), Vec::<usize>::new());
}

#[test]
fn only_conjugates_reports_no_mode() {
    assert_eq!(modes_in_report_order(&vec![EigenvalueClass::Conjugate, EigenvalueClass::Conjugate]), Vec::<usize>::new());
}
