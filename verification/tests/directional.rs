use ta::indicators::{
    AverageDirectionalIndex, DirectionalMovementIndex, NegativeDirectionalIndicator,
    NegativeDirectionalMovement, PositiveDirectionalIndicator, PositiveDirectionalMovement,
    RotationFactor, SmoothedNegativeDirectionalMovement, SmoothedPositiveDirectionalMovement,
};
use ta::{Bar, Next, Num, Reset};

fn lit(x: f64) -> Num {
    Num::from_raw((x * 1e12).round() as i128)
}

#[test]
fn directional_movement_test_new() {
    assert!(NegativeDirectionalMovement::new().is_ok());
}

#[test]
fn directional_movement_test_next() {
    let mut dmm = NegativeDirectionalMovement::new().unwrap();

    dmm.next(lit(10.0));
    dmm.next(lit(11.0));

    assert_eq!(dmm.next(lit(9.0)), lit(2.0));
}

#[test]
fn directional_movement_test_reset() {
    let mut dmm = NegativeDirectionalMovement::new().unwrap();

    dmm.next(lit(10.0));
    dmm.next(lit(11.0));

    dmm.reset();

    assert_eq!(dmm.next(lit(10.0)), lit(10.0));
}

#[test]
fn directional_movement_test_default() {
    NegativeDirectionalMovement::default();
}

#[test]
fn directional_movement_test_display() {
    let indicator = NegativeDirectionalMovement::new().unwrap();
    assert_eq!(indicator.to_string(), "DM-");
}

#[test]
fn positive_directional_movement_test_new() {
    assert!(PositiveDirectionalMovement::new().is_ok());
}

#[test]
fn positive_directional_movement_test_next() {
    let mut dmp = PositiveDirectionalMovement::new().unwrap();

    dmp.next(lit(10.0));
    dmp.next(lit(11.0));

    assert_eq!(dmp.next(lit(9.0)), lit(-2.0));
}

#[test]
fn positive_directional_movement_test_reset() {
    let mut dmp = PositiveDirectionalMovement::new().unwrap();

    dmp.next(lit(10.0));
    dmp.next(lit(11.0));

    dmp.reset();

    assert_eq!(dmp.next(lit(10.0)), lit(10.0));
}

#[test]
fn positive_directional_movement_test_default() {
    PositiveDirectionalMovement::default();
}

#[test]
fn positive_directional_movement_test_display() {
    let indicator = PositiveDirectionalMovement::new().unwrap();
    assert_eq!(indicator.to_string(), "DM+");
}

#[test]
fn smoothed_directional_movement_test_new() {
    assert!(SmoothedNegativeDirectionalMovement::new(0).is_err());
    assert!(SmoothedNegativeDirectionalMovement::new(1).is_ok());
}

#[test]
fn smoothed_directional_movement_test_next() {
    let mut sndm = SmoothedNegativeDirectionalMovement::new(3).unwrap();

    sndm.next(lit(10.0));
    sndm.next(lit(11.0));
    sndm.next(lit(9.0));
    sndm.next(lit(12.0));

    assert_eq!(sndm.next(lit(11.0)), lit(-1.0));
}

#[test]
fn smoothed_directional_movement_test_reset() {}

#[test]
fn smoothed_directional_movement_test_default() {
    SmoothedNegativeDirectionalMovement::default();
}

#[test]
fn smoothed_directional_movement_test_display() {
    let indicator = SmoothedNegativeDirectionalMovement::new(8).unwrap();
    assert_eq!(indicator.to_string(), "SDM-(8)");
}

#[test]
fn smoothed_positive_directional_movement_test_new() {
    assert!(SmoothedPositiveDirectionalMovement::new(0).is_err());
    assert!(SmoothedPositiveDirectionalMovement::new(1).is_ok());
}

#[test]
fn smoothed_positive_directional_movement_test_next() {
    let mut sdmp = SmoothedPositiveDirectionalMovement::new(3).unwrap();

    sdmp.next(lit(10.0));
    sdmp.next(lit(11.0));
    sdmp.next(lit(9.0));

    assert_eq!(sdmp.next(lit(12.0)), lit(11.0));
}

#[test]
fn smoothed_positive_directional_movement_test_reset() {}

#[test]
fn smoothed_positive_directional_movement_test_default() {
    SmoothedPositiveDirectionalMovement::default();
}

#[test]
fn smoothed_positive_directional_movement_test_display() {
    let indicator = SmoothedPositiveDirectionalMovement::new(8).unwrap();
    assert_eq!(indicator.to_string(), "SDM+(8)");
}

#[test]
fn directional_indicator_test_new() {
    assert!(NegativeDirectionalIndicator::new(0).is_err());
    assert!(NegativeDirectionalIndicator::new(1).is_ok());
}

#[test]
fn directional_indicator_test_next() {
    let mut dm_minus = NegativeDirectionalIndicator::new(3).unwrap();

    dm_minus.next(lit(10.0));
    dm_minus.next(lit(11.0));
    dm_minus.next(lit(9.0));
    dm_minus.next(lit(12.0));
    dm_minus.next(lit(11.0));

    dm_minus.next(lit(11.0));
}

#[test]
fn directional_indicator_test_reset() {
    let mut dm_minus = NegativeDirectionalIndicator::new(5).unwrap();

    // The first bare value yields a zero true range, so the quotient
    // saturates at the negative end point.
    assert_eq!(dm_minus.next(lit(4.0)), Num::min_value());

    dm_minus.next(lit(10.0));
    dm_minus.next(lit(15.0));
    dm_minus.next(lit(20.0));

    dm_minus.reset();
    assert_eq!(dm_minus.next(lit(4.0)), Num::min_value());
}

#[test]
fn directional_indicator_test_default() {
    NegativeDirectionalIndicator::default();
}

#[test]
fn directional_indicator_test_display() {
    let indicator = NegativeDirectionalIndicator::new(8).unwrap();
    assert_eq!(indicator.to_string(), "DI-(8)");
}

#[test]
fn positive_directional_indicator_test_display() {
    let indicator = PositiveDirectionalIndicator::new(8).unwrap();
    assert_eq!(indicator.to_string(), "DI+(8)");
}

#[test]
fn directional_movement_index_test_default() {
    let mut dx = DirectionalMovementIndex::default();
    dx.next(lit(10.0));
    assert_eq!(dx.to_string(), "DX(14)");
}

#[test]
fn average_directional_index_test_default() {
    let mut adx = AverageDirectionalIndex::default();
    adx.next(lit(10.0));
    adx.next(lit(12.0));
    assert_eq!(adx.to_string(), "ADX(14)");
}

#[test]
fn rotation_factor_test_new() {
    let rf = RotationFactor::new();
    assert_eq!(rf.to_string(), "ROTATION_FACTOR(0)");
}

#[test]
fn rotation_factor_test_next_with_bars() {
    let mut rf = RotationFactor::new();

    let bar1 = Bar::new().high(lit(10.0)).low(lit(9.0));
    let bar2 = Bar::new().high(lit(10.4)).low(lit(9.8));
    let bar3 = Bar::new().high(lit(10.1)).low(lit(9.8));
    let bar4 = Bar::new().high(lit(11.1)).low(lit(9.6));

    // First bar as a baseline of 0
    assert_eq!(rf.next(&bar1), lit(0.0));

    // Start incrementing and decrementing from the second bar onwards
    assert_eq!(rf.next(&bar2), lit(2.0));
    assert_eq!(rf.next(&bar3), lit(-1.0));
    assert_eq!(rf.next(&bar4), lit(0.0));
}

#[test]
fn rotation_factor_test_reset() {
    let mut rf = RotationFactor::new();

    rf.reset();
    assert_eq!(rf.to_string(), "ROTATION_FACTOR(0)");
    assert_eq!(rf.next(lit(5.0)), lit(0.0));
}

#[test]
fn rotation_factor_test_default() {
    RotationFactor::default();
}

#[test]
fn rotation_factor_test_display() {
    let indicator = RotationFactor::new();
    assert_eq!(indicator.to_string(), "ROTATION_FACTOR(0)");
}
