use font_enumeration::core_text::CT_BLACK;
use font_enumeration::fontconfig::{FC_WEIGHT_EXTRABLACK, FC_WEIGHT_THIN};
use font_enumeration::{
    Weight, WEIGHT_BLACK, WEIGHT_BOLD, WEIGHT_EXTRA_BLACK, WEIGHT_EXTRA_BOLD, WEIGHT_EXTRA_LIGHT,
    WEIGHT_LIGHT, WEIGHT_MEDIUM, WEIGHT_NORMAL, WEIGHT_SEMI_BOLD, WEIGHT_SEMI_LIGHT, WEIGHT_THIN,
};

#[test]
fn test_weight_conversion() {
    assert_eq!(Weight::from_fc(FC_WEIGHT_THIN), Weight::new(WEIGHT_THIN));
    assert_eq!(Weight::from_fc(1), Weight::new(102_500));
    assert_eq!(Weight::from_fc(70), Weight::new(340_000));
    assert_eq!(
        Weight::from_fc(FC_WEIGHT_EXTRABLACK - 1),
        Weight::new(940_000)
    );
    assert_eq!(
        Weight::from_fc(FC_WEIGHT_EXTRABLACK + 1),
        Weight::new(WEIGHT_EXTRA_BLACK)
    );
    assert_eq!(Weight::from_fc(50000), Weight::new(WEIGHT_EXTRA_BLACK));
}

#[test]
fn fc_weight_floor() {
    // At or below the lowest reference point the converter returns the
    // documented floor, never an extrapolation.
    assert_eq!(Weight::from_fc(0), Weight::new(WEIGHT_THIN));
    assert_eq!(Weight::from_fc(-1), Weight::new(WEIGHT_THIN));
    assert_eq!(Weight::from_fc(-50_000), Weight::new(WEIGHT_THIN));
}

#[test]
fn fc_weight_reference_points() {
    // Each native reference point converts to exactly its canonical weight.
    assert_eq!(Weight::from_fc(40).value(), WEIGHT_EXTRA_LIGHT);
    assert_eq!(Weight::from_fc(50).value(), WEIGHT_LIGHT);
    assert_eq!(Weight::from_fc(75).value(), WEIGHT_SEMI_LIGHT);
    assert_eq!(Weight::from_fc(80).value(), WEIGHT_NORMAL);
    assert_eq!(Weight::from_fc(100).value(), WEIGHT_MEDIUM);
    assert_eq!(Weight::from_fc(180).value(), WEIGHT_SEMI_BOLD);
    assert_eq!(Weight::from_fc(200).value(), WEIGHT_BOLD);
    assert_eq!(Weight::from_fc(205).value(), WEIGHT_EXTRA_BOLD);
    assert_eq!(Weight::from_fc(210).value(), WEIGHT_BLACK);
    assert_eq!(Weight::from_fc(215).value(), WEIGHT_EXTRA_BLACK);
}

#[test]
fn fc_weight_strictly_between() {
    // Inputs strictly between two reference points interpolate strictly
    // between their canonical weights.
    let cases = [
        (1, WEIGHT_THIN, WEIGHT_EXTRA_LIGHT),
        (45, WEIGHT_EXTRA_LIGHT, WEIGHT_LIGHT),
        (60, WEIGHT_LIGHT, WEIGHT_SEMI_LIGHT),
        (78, WEIGHT_SEMI_LIGHT, WEIGHT_NORMAL),
        (90, WEIGHT_NORMAL, WEIGHT_MEDIUM),
        (140, WEIGHT_MEDIUM, WEIGHT_SEMI_BOLD),
        (190, WEIGHT_SEMI_BOLD, WEIGHT_BOLD),
        (203, WEIGHT_BOLD, WEIGHT_EXTRA_BOLD),
        (207, WEIGHT_EXTRA_BOLD, WEIGHT_BLACK),
        (214, WEIGHT_BLACK, WEIGHT_EXTRA_BLACK),
    ];
    for (native, low, high) in cases {
        let got = Weight::from_fc(native).value();
        assert!(low < got && got < high, "{native} gave {got}");
    }
}

#[test]
fn fc_weight_is_monotone() {
    let mut last = Weight::from_fc(-10).value();
    for native in -9..260 {
        let next = Weight::from_fc(native).value();
        assert!(last <= next, "weight dropped at {native}");
        last = next;
    }
}

#[test]
fn ct_weight_is_monotone() {
    let mut last = Weight::from_core_text(-90_000).value();
    for step in -8_999..7_000 {
        let next = Weight::from_core_text(step * 10).value();
        assert!(last <= next, "weight dropped at {}", step * 10);
        last = next;
    }
}

#[test]
fn ct_weight_floor() {
    assert_eq!(Weight::from_core_text(-80_000).value(), 50_000);
    assert_eq!(Weight::from_core_text(-80_001).value(), 50_000);
    assert_eq!(Weight::from_core_text(-1_000_000).value(), 50_000);
    // Within one hundred-thousandth of the floor point it snaps to the floor
    // weight as well.
    assert_eq!(Weight::from_core_text(-79_999).value(), 50_000);
}

#[test]
fn ct_weight_reference_points() {
    assert_eq!(Weight::from_core_text(-60_000).value(), WEIGHT_THIN);
    assert_eq!(Weight::from_core_text(-40_000).value(), WEIGHT_LIGHT);
    assert_eq!(Weight::from_core_text(0).value(), WEIGHT_NORMAL);
    assert_eq!(Weight::from_core_text(23_000).value(), WEIGHT_MEDIUM);
    assert_eq!(Weight::from_core_text(30_000).value(), WEIGHT_SEMI_BOLD);
    assert_eq!(Weight::from_core_text(40_000).value(), WEIGHT_BOLD);
    assert_eq!(Weight::from_core_text(56_000).value(), WEIGHT_EXTRA_BOLD);
    assert_eq!(Weight::from_core_text(62_000).value(), WEIGHT_BLACK);
}

#[test]
fn ct_weight_tolerance_snaps() {
    // One hundred-thousandth away from a reference point still snaps to it:
    // no interpolation drift at named breakpoints.
    assert_eq!(Weight::from_core_text(-59_999).value(), WEIGHT_THIN);
    assert_eq!(Weight::from_core_text(-60_001).value(), WEIGHT_THIN);
    assert_eq!(Weight::from_core_text(1).value(), WEIGHT_NORMAL);
    assert_eq!(Weight::from_core_text(-1).value(), WEIGHT_NORMAL);
    assert_eq!(Weight::from_core_text(62_001).value(), WEIGHT_BLACK);
}

#[test]
fn ct_weight_interpolates() {
    // Halfway between the regular and medium points in native units lands
    // halfway between their canonical weights.
    assert_eq!(Weight::from_core_text(11_500).value(), 450_000);
    let between = Weight::from_core_text(27_000).value();
    assert!(WEIGHT_MEDIUM < between && between < WEIGHT_SEMI_BOLD);
}

#[test]
fn ct_weight_ceiling() {
    // The Core Text scale saturates at its black reference point, not at the
    // canonical scale's own maximum.
    assert_eq!(Weight::from_core_text(CT_BLACK + 2).value(), WEIGHT_BLACK);
    assert_eq!(Weight::from_core_text(100_000).value(), WEIGHT_BLACK);
    assert_eq!(Weight::from_core_text(5_000_000).value(), WEIGHT_BLACK);
    assert_eq!(Weight::from_core_text(i64::MAX).value(), WEIGHT_BLACK);
}
