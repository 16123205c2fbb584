use ta::indicators::{FastStochastic, RelativeStrengthIndex, SlowStochastic};
use ta::{Bar, Next, Num, Reset};

fn lit(x: f64) -> Num {
    Num::from_raw((x * 1e12).round() as i128)
}

fn to_f64(x: Num) -> f64 {
    x.raw() as f64 / 1e12
}

fn roundi(x: Num) -> f64 {
    to_f64(x).round()
}

#[test]
fn relative_strength_index_test_new() {
    assert!(RelativeStrengthIndex::new(0).is_err());
    assert!(RelativeStrengthIndex::new(1).is_ok());
}

#[test]
fn relative_strength_index_test_next() {
    let mut rsi = RelativeStrengthIndex::new(3).unwrap();
    assert_eq!(rsi.next(lit(10.0)), lit(50.0));
    assert_eq!(roundi(rsi.next(lit(10.5))), 86.0);
    assert_eq!(roundi(rsi.next(lit(10.0))), 35.0);
    assert_eq!(roundi(rsi.next(lit(9.5))), 16.0);
}

#[test]
fn relative_strength_index_test_reset() {
    let mut rsi = RelativeStrengthIndex::new(3).unwrap();
    assert_eq!(rsi.next(lit(10.0)), lit(50.0));
    assert_eq!(roundi(rsi.next(lit(10.5))), 86.0);

    rsi.reset();
    assert_eq!(roundi(rsi.next(lit(10.0))), 50.0);
    assert_eq!(roundi(rsi.next(lit(10.5))), 86.0);
}

#[test]
fn relative_strength_index_test_default() {
    RelativeStrengthIndex::default();
}

#[test]
fn relative_strength_index_test_display() {
    let rsi = RelativeStrengthIndex::new(16).unwrap();
    assert_eq!(rsi.to_string(), "RSI(16)");
}

#[test]
fn fast_stochastic_test_new() {
    assert!(FastStochastic::new(0).is_err());
    assert!(FastStochastic::new(1).is_ok());
}

#[test]
fn fast_stochastic_test_next_with_f64() {
    let mut stoch = FastStochastic::new(3).unwrap();
    assert_eq!(stoch.next(lit(0.0)), lit(50.0));
    assert_eq!(stoch.next(lit(200.0)), lit(100.0));
    assert_eq!(stoch.next(lit(100.0)), lit(50.0));
    assert_eq!(stoch.next(lit(120.0)), lit(20.0));
    assert_eq!(stoch.next(lit(115.0)), lit(75.0));
}

#[test]
fn fast_stochastic_test_next_with_bars() {
    let test_data = vec![
        // high, low , close, expected
        (20.0, 20.0, 20.0, 50.0), // min = 20, max = 20
        (30.0, 10.0, 25.0, 75.0), // min = 10, max = 30
        (40.0, 20.0, 16.0, 20.0), // min = 10, max = 40
        (35.0, 15.0, 19.0, 30.0), // min = 10, max = 40
        (30.0, 20.0, 25.0, 40.0), // min = 15, max = 40
        (35.0, 25.0, 30.0, 75.0), // min = 15, max = 35
    ];

    let mut stoch = FastStochastic::new(3).unwrap();

    for (high, low, close, expected) in test_data {
        let input_bar = Bar::new().high(lit(high)).low(lit(low)).close(lit(close));
        assert_eq!(stoch.next(&input_bar), lit(expected));
    }
}

#[test]
fn fast_stochastic_test_reset() {
    let mut indicator = FastStochastic::new(10).unwrap();
    assert_eq!(indicator.next(lit(10.0)), lit(50.0));
    assert_eq!(indicator.next(lit(210.0)), lit(100.0));
    assert_eq!(indicator.next(lit(10.0)), lit(0.0));
    assert_eq!(indicator.next(lit(60.0)), lit(25.0));

    indicator.reset();
    assert_eq!(indicator.next(lit(10.0)), lit(50.0));
    assert_eq!(indicator.next(lit(20.0)), lit(100.0));
    assert_eq!(indicator.next(lit(12.5)), lit(25.0));
}

#[test]
fn fast_stochastic_test_default() {
    FastStochastic::default();
}

#[test]
fn fast_stochastic_test_display() {
    let indicator = FastStochastic::new(21).unwrap();
    assert_eq!(indicator.to_string(), "FAST_STOCH(21)");
}

#[test]
fn slow_stochastic_test_new() {
    assert!(SlowStochastic::new(0, 1).is_err());
    assert!(SlowStochastic::new(1, 0).is_err());
    assert!(SlowStochastic::new(1, 1).is_ok());
}

#[test]
fn slow_stochastic_test_next_with_f64() {
    let mut stoch = SlowStochastic::new(3, 2).unwrap();
    assert_eq!(stoch.next(lit(10.0)), lit(50.0));
    assert_eq!(roundi(stoch.next(lit(50.0))), 83.0);
    assert_eq!(roundi(stoch.next(lit(50.0))), 94.0);
    assert_eq!(roundi(stoch.next(lit(30.0))), 31.0);
    assert_eq!(roundi(stoch.next(lit(55.0))), 77.0);
}

#[test]
fn slow_stochastic_test_next_with_bars() {
    let test_data = vec![
        // high, low , close, expected
        (30.0, 10.0, 25.0, 75.0),
        (20.0, 20.0, 20.0, 58.0),
        (40.0, 20.0, 16.0, 33.0),
        (35.0, 15.0, 19.0, 22.0),
        (30.0, 20.0, 25.0, 34.0),
        (35.0, 25.0, 30.0, 61.0),
    ];

    let mut stoch = SlowStochastic::new(3, 2).unwrap();

    for (high, low, close, expected) in test_data {
        let input_bar = Bar::new().high(lit(high)).low(lit(low)).close(lit(close));
        assert_eq!(roundi(stoch.next(&input_bar)), expected);
    }
}

#[test]
fn slow_stochastic_test_reset() {
    let mut stoch = SlowStochastic::new(3, 2).unwrap();
    assert_eq!(stoch.next(lit(10.0)), lit(50.0));
    assert_eq!(roundi(stoch.next(lit(50.0))), 83.0);
    assert_eq!(roundi(stoch.next(lit(50.0))), 94.0);

    stoch.reset();
    assert_eq!(stoch.next(lit(10.0)), lit(50.0));
}

#[test]
fn slow_stochastic_test_default() {
    SlowStochastic::default();
}

#[test]
fn slow_stochastic_test_display() {
    let indicator = SlowStochastic::new(10, 2).unwrap();
    assert_eq!(indicator.to_string(), "SLOW_STOCH(10, 2)");
}
