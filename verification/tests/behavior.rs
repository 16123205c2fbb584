//! Cross-cutting behaviour: determinism after reset, snapshot round trips,
//! extremum tracking against a brute-force reference, and the sign of the
//! reported deviation.

use ta::indicators::{
    ChandelierExit, ExponentialMovingAverage, Maximum, Minimum, MoneyFlowIndex,
    MovingAverageConvergenceDivergence, QuantitativeQualitativeEstimation,
    SmoothedPositiveDirectionalMovement, StandardDeviation,
};
use ta::{Bar, Next, Num, Period, Reset};

fn lit(x: f64) -> Num {
    Num::from_raw((x * 1e12).round() as i128)
}

#[test]
fn test_reset_determinism_standard_deviation() {
    let seq = [10.0, 20.0, 30.0, 20.0, 10.0, 100.0, 3.5, -2.0];

    let mut fresh = StandardDeviation::new(4).unwrap();
    let mut used = StandardDeviation::new(4).unwrap();
    for x in [4.2, 9.0, -3.0, 7.7, 5.5] {
        used.next(lit(x));
    }
    used.reset();

    for x in seq {
        assert_eq!(fresh.next(lit(x)), used.next(lit(x)));
    }
}

#[test]
fn test_reset_determinism_exponential_moving_average() {
    let seq = [2.0, 5.0, 1.0, 6.25, -3.0, 0.0, 11.5];

    let mut fresh = ExponentialMovingAverage::new(3).unwrap();
    let mut used = ExponentialMovingAverage::new(3).unwrap();
    for x in [100.0, -50.0, 3.25] {
        used.next(lit(x));
    }
    used.reset();

    for x in seq {
        assert_eq!(fresh.next(lit(x)), used.next(lit(x)));
    }
}

#[test]
fn test_clone_is_independent() {
    let mut a = StandardDeviation::new(4).unwrap();
    a.next(lit(10.0));
    a.next(lit(20.0));

    let mut b = a.clone();
    // Both copies continue identically.
    assert_eq!(a.next(lit(30.0)), b.next(lit(30.0)));
    // Diverging one copy leaves the other alone.
    b.next(lit(999.0));
    let mut c = a.clone();
    assert_eq!(a.next(lit(5.0)), c.next(lit(5.0)));
}

#[test]
fn test_extremum_matches_brute_force() {
    let inputs = [
        4.0, 1.2, 5.0, 3.0, 4.0, 0.0, -1.0, -2.0, -1.5, 8.25, 8.25, -9.0, 2.0, 7.0, 7.0, 6.5,
    ];
    for period in [1usize, 2, 3, 5, 7] {
        let mut max = Maximum::new(period).unwrap();
        let mut min = Minimum::new(period).unwrap();
        assert_eq!(max.period(), period);
        assert_eq!(min.period(), period);
        for n in 0..inputs.len() {
            let window_start = if n + 1 >= period { n + 1 - period } else { 0 };
            let window = &inputs[window_start..n + 1];
            let true_max = window.iter().cloned().fold(f64::MIN, f64::max);
            let true_min = window.iter().cloned().fold(f64::MAX, f64::min);
            assert_eq!(max.next(lit(inputs[n])), lit(true_max));
            assert_eq!(min.next(lit(inputs[n])), lit(true_min));
        }
    }
}

#[test]
fn test_deviation_is_never_negative() {
    // Many repeated near-equal values drive the incremental sum of squared
    // deviations toward zero from above; the output must stay nonnegative.
    let mut sd = StandardDeviation::new(6).unwrap();
    let zero = Num::zero();
    let mut x = 1.872;
    for _ in 0..200 {
        let out = sd.next(lit(x));
        assert!(out >= zero);
        x = if x > 1.0 { 1.0 } else { 1.872 };
    }
}

#[test]
fn test_snapshot_roundtrip_exponential_moving_average() {
    let head = [2.0, 5.0, 1.0];
    let tail = [6.25, -3.0, 0.5, 11.0];

    let mut uninterrupted = ExponentialMovingAverage::new(3).unwrap();
    let mut suspended = ExponentialMovingAverage::new(3).unwrap();
    for x in head {
        uninterrupted.next(lit(x));
        suspended.next(lit(x));
    }

    let snapshot = suspended.snapshot();
    let mut restored = ExponentialMovingAverage::restore(&snapshot).unwrap();

    for x in tail {
        assert_eq!(restored.next(lit(x)), uninterrupted.next(lit(x)));
    }
}

#[test]
fn test_snapshot_roundtrip_standard_deviation() {
    let head = [10.0, 20.0, 30.0];
    let tail = [20.0, 10.0, 100.0, 4.5];

    let mut uninterrupted = StandardDeviation::new(4).unwrap();
    let mut suspended = StandardDeviation::new(4).unwrap();
    for x in head {
        uninterrupted.next(lit(x));
        suspended.next(lit(x));
    }

    let snapshot = suspended.snapshot();
    let mut restored = StandardDeviation::restore(&snapshot).unwrap();

    for x in tail {
        assert_eq!(restored.next(lit(x)), uninterrupted.next(lit(x)));
    }
}

#[test]
fn test_snapshot_roundtrip_macd() {
    let head = [2.0, 3.0, 4.2];
    let tail = [7.0, 6.7, 6.5];

    let mut uninterrupted = MovingAverageConvergenceDivergence::new(3, 6, 4).unwrap();
    let mut suspended = MovingAverageConvergenceDivergence::new(3, 6, 4).unwrap();
    for x in head {
        uninterrupted.next(lit(x));
        suspended.next(lit(x));
    }

    let snapshot = suspended.snapshot();
    let mut restored = MovingAverageConvergenceDivergence::restore(&snapshot).unwrap();

    for x in tail {
        assert_eq!(restored.next(lit(x)), uninterrupted.next(lit(x)));
    }
}

#[test]
fn test_snapshot_roundtrip_maximum() {
    let head = [4.0, 1.2, 5.0, 3.0];
    let tail = [4.0, 0.0, -1.0, -2.0, -1.5];

    let mut uninterrupted = Maximum::new(3).unwrap();
    let mut suspended = Maximum::new(3).unwrap();
    for x in head {
        uninterrupted.next(lit(x));
        suspended.next(lit(x));
    }

    let snapshot = suspended.snapshot();
    let mut restored = Maximum::restore(&snapshot).unwrap();

    for x in tail {
        assert_eq!(restored.next(lit(x)), uninterrupted.next(lit(x)));
    }
}

#[test]
fn test_restore_recomputes_extremum_cache() {
    let mut min = Minimum::new(3).unwrap();
    min.next(lit(4.0));
    min.next(lit(1.2));
    let mut snapshot = min.snapshot();
    // Point the cache at the wrong slot; the rebuilt tracker rescans and
    // still reports the true minimum.
    snapshot.min_index = 0;
    let mut restored = Minimum::restore(&snapshot).unwrap();
    assert_eq!(restored.next(lit(5.0)), lit(1.2));
}

#[test]
fn test_snapshot_roundtrip_money_flow_index() {
    fn bar(h: f64, l: f64, c: f64, v: f64) -> Bar {
        Bar::new().high(lit(h)).low(lit(l)).close(lit(c)).volume(lit(v))
    }
    let head = [(3.0, 1.0, 2.0, 500.0), (2.3, 2.0, 2.3, 1000.0), (9.0, 7.0, 8.0, 200.0)];
    let tail = [(5.0, 3.0, 4.0, 500.0), (4.0, 2.0, 3.0, 5000.0), (2.0, 1.0, 1.5, 6000.0)];

    let mut uninterrupted = MoneyFlowIndex::new(3).unwrap();
    let mut suspended = MoneyFlowIndex::new(3).unwrap();
    for (h, l, c, v) in head {
        uninterrupted.next(&bar(h, l, c, v));
        suspended.next(&bar(h, l, c, v));
    }

    let snapshot = suspended.snapshot();
    let mut restored = MoneyFlowIndex::restore(&snapshot).unwrap();

    for (h, l, c, v) in tail {
        assert_eq!(restored.next(&bar(h, l, c, v)), uninterrupted.next(&bar(h, l, c, v)));
    }
}

#[test]
fn test_snapshot_roundtrip_chandelier_exit() {
    fn bar(h: f64, l: f64, c: f64) -> Bar {
        Bar::new().high(lit(h)).low(lit(l)).close(lit(c))
    }
    let head = [(2.0, 1.0, 1.5), (5.0, 3.0, 4.0), (9.0, 7.0, 8.0)];
    let tail = [(5.0, 3.0, 4.0), (5.0, 3.0, 4.0), (2.0, 1.0, 1.5)];

    let mut uninterrupted = ChandelierExit::new(5, lit(2.0)).unwrap();
    let mut suspended = ChandelierExit::new(5, lit(2.0)).unwrap();
    for (h, l, c) in head {
        uninterrupted.next(&bar(h, l, c));
        suspended.next(&bar(h, l, c));
    }

    let snapshot = suspended.snapshot();
    let mut restored = ChandelierExit::restore(&snapshot).unwrap();

    for (h, l, c) in tail {
        assert_eq!(restored.next(&bar(h, l, c)), uninterrupted.next(&bar(h, l, c)));
    }
}

#[test]
fn test_snapshot_roundtrip_smoothed_directional_movement() {
    let head = [10.0, 11.0, 9.0, 12.0];
    let tail = [11.0, 8.0, 14.0];

    let mut uninterrupted = SmoothedPositiveDirectionalMovement::new(3).unwrap();
    let mut suspended = SmoothedPositiveDirectionalMovement::new(3).unwrap();
    for x in head {
        uninterrupted.next(lit(x));
        suspended.next(lit(x));
    }

    let snapshot = suspended.snapshot();
    let mut restored = SmoothedPositiveDirectionalMovement::restore(&snapshot).unwrap();

    for x in tail {
        assert_eq!(restored.next(lit(x)), uninterrupted.next(lit(x)));
    }
}

#[test]
fn test_snapshot_roundtrip_qqe() {
    let head = [3.0, 4.0, 6.0, 2.0, 3.0];
    let tail = [4.0, 5.6, 2.0, 1.0, 2.3];

    let mut uninterrupted = QuantitativeQualitativeEstimation::new(5, 5, lit(4.236)).unwrap();
    let mut suspended = QuantitativeQualitativeEstimation::new(5, 5, lit(4.236)).unwrap();
    for x in head {
        uninterrupted.next(lit(x));
        suspended.next(lit(x));
    }

    let snapshot = suspended.snapshot();
    let mut restored = QuantitativeQualitativeEstimation::restore(&snapshot).unwrap();

    for x in tail {
        assert_eq!(restored.next(lit(x)), uninterrupted.next(lit(x)));
    }
}

#[test]
fn test_snapshot_rejects_bad_multiplier() {
    let ce = ChandelierExit::new(5, lit(2.0)).unwrap();
    let mut snapshot = ce.snapshot();
    snapshot.multiplier = lit(-1.0);
    assert!(ChandelierExit::restore(&snapshot).is_err());
}

#[test]
fn test_snapshot_rejects_inconsistent_state() {
    let mut sd = StandardDeviation::new(4).unwrap();
    sd.next(lit(10.0));
    let mut snapshot = sd.snapshot();
    snapshot.index = 9;
    assert!(StandardDeviation::restore(&snapshot).is_err());
}

#[test]
fn test_fixed_point_parts() {
    // Decimal-part constructors agree with the raw representation.
    assert_eq!(Num::new(1872, 3), lit(1.872));
    assert_eq!(Num::new(-5, 1), lit(-0.5));
    assert_eq!(Num::from_int(42), lit(42.0));
    assert_eq!(Num::zero(), lit(0.0));
}

#[test]
fn test_division_by_zero_saturates() {
    let one = Num::from_int(1);
    let minus = Num::from_int(-3);
    let zero = Num::zero();
    assert_eq!(one.div(zero), Num::max_value());
    assert_eq!(minus.div(zero), Num::min_value());
    assert_eq!(zero.div(zero), zero);
}

#[test]
fn test_sqrt_rounds_down() {
    assert_eq!(Num::from_int(4).sqrt(), lit(2.0));
    assert_eq!(Num::from_int(0).sqrt(), lit(0.0));
    assert_eq!(Num::from_int(-9).sqrt(), lit(0.0));
    // sqrt(2) truncated at the twelfth decimal place.
    assert_eq!(Num::from_int(2).sqrt(), Num::from_raw(1_414_213_562_373));
}
