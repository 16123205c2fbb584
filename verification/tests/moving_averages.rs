use ta::indicators::{
    ExponentialMovingAverage, HullMovingAverage, MovingAverageConvergenceDivergence,
    PercentagePriceOscillator, SimpleMovingAverage, WeightedMovingAverage,
};
use ta::{Bar, Next, Num, Reset};

fn lit(x: f64) -> Num {
    Num::from_raw((x * 1e12).round() as i128)
}

fn to_f64(x: Num) -> f64 {
    x.raw() as f64 / 1e12
}

fn round(x: Num) -> f64 {
    (to_f64(x) * 1000.0).round() / 1000.0
}

fn round2(x: Num) -> f64 {
    (to_f64(x) * 100.0).round() / 100.0
}

type Macd = MovingAverageConvergenceDivergence;
type Ppo = PercentagePriceOscillator;

fn round_macd(o: ta::indicators::MovingAverageConvergenceDivergenceOutput) -> (f64, f64, f64) {
    (round2(o.macd), round2(o.signal), round2(o.histogram))
}

fn round_ppo(o: ta::indicators::PercentagePriceOscillatorOutput) -> (f64, f64, f64) {
    (round2(o.ppo), round2(o.signal), round2(o.histogram))
}

#[test]
fn exponential_moving_average_test_new() {
    assert!(ExponentialMovingAverage::new(0).is_err());
    assert!(ExponentialMovingAverage::new(1).is_ok());
}

#[test]
fn exponential_moving_average_test_next() {
    let mut ema = ExponentialMovingAverage::new(3).unwrap();

    assert_eq!(ema.next(lit(2.0)), lit(2.0));
    assert_eq!(ema.next(lit(5.0)), lit(3.5));
    assert_eq!(ema.next(lit(1.0)), lit(2.25));
    assert_eq!(ema.next(lit(6.25)), lit(4.25));

    let mut ema = ExponentialMovingAverage::new(3).unwrap();
    let bar1 = Bar::new().close(lit(2.0));
    let bar2 = Bar::new().close(lit(5.0));
    assert_eq!(ema.next(&bar1), lit(2.0));
    assert_eq!(ema.next(&bar2), lit(3.5));
}

#[test]
fn exponential_moving_average_test_reset() {
    let mut ema = ExponentialMovingAverage::new(5).unwrap();

    assert_eq!(ema.next(lit(4.0)), lit(4.0));
    ema.next(lit(10.0));
    ema.next(lit(15.0));
    ema.next(lit(20.0));
    assert_ne!(ema.next(lit(4.0)), lit(4.0));

    ema.reset();
    assert_eq!(ema.next(lit(4.0)), lit(4.0));
}

#[test]
fn exponential_moving_average_test_default() {
    ExponentialMovingAverage::default();
}

#[test]
fn exponential_moving_average_test_display() {
    let ema = ExponentialMovingAverage::new(7).unwrap();
    assert_eq!(ema.to_string(), "EMA(7)");
}

#[test]
fn simple_moving_average_test_new() {
    assert!(SimpleMovingAverage::new(0).is_err());
    assert!(SimpleMovingAverage::new(1).is_ok());
}

#[test]
fn simple_moving_average_test_next() {
    let mut sma = SimpleMovingAverage::new(4).unwrap();
    assert_eq!(sma.next(lit(4.0)), lit(4.0));
    assert_eq!(sma.next(lit(5.0)), lit(4.5));
    assert_eq!(sma.next(lit(6.0)), lit(5.0));
    assert_eq!(sma.next(lit(6.0)), lit(5.25));
    assert_eq!(sma.next(lit(6.0)), lit(5.75));
    assert_eq!(sma.next(lit(6.0)), lit(6.0));
    assert_eq!(sma.next(lit(2.0)), lit(5.0));
}

#[test]
fn simple_moving_average_test_next_with_bars() {
    fn bar(close: f64) -> Bar {
        Bar::new().close(lit(close))
    }

    let mut sma = SimpleMovingAverage::new(3).unwrap();
    assert_eq!(sma.next(&bar(4.0)), lit(4.0));
    assert_eq!(sma.next(&bar(4.0)), lit(4.0));
    assert_eq!(sma.next(&bar(7.0)), lit(5.0));
    assert_eq!(sma.next(&bar(1.0)), lit(4.0));
}

#[test]
fn simple_moving_average_test_reset() {
    let mut sma = SimpleMovingAverage::new(4).unwrap();
    assert_eq!(sma.next(lit(4.0)), lit(4.0));
    assert_eq!(sma.next(lit(5.0)), lit(4.5));
    assert_eq!(sma.next(lit(6.0)), lit(5.0));

    sma.reset();
    assert_eq!(sma.next(lit(99.0)), lit(99.0));
}

#[test]
fn simple_moving_average_test_default() {
    SimpleMovingAverage::default();
}

#[test]
fn simple_moving_average_test_display() {
    let sma = SimpleMovingAverage::new(5).unwrap();
    assert_eq!(sma.to_string(), "SMA(5)");
}

#[test]
fn weighted_moving_average_test_new() {
    assert!(WeightedMovingAverage::new(0).is_err());
    assert!(WeightedMovingAverage::new(1).is_ok());
}

#[test]
fn weighted_moving_average_test_next() {
    let mut wma = WeightedMovingAverage::new(3).unwrap();

    assert_eq!(wma.next(lit(12.0)), lit(12.0));
    assert_eq!(wma.next(lit(3.0)), lit(6.0)); // (1*12 + 2*3) / 3 = 6.0
    assert_eq!(wma.next(lit(3.0)), lit(4.5)); // (1*12 + 2*3 + 3*3) / 6 = 4.5
    assert_eq!(wma.next(lit(5.0)), lit(4.0)); // (1*3 + 2*3 + 3*5) / 6 = 4.0

    let mut wma = WeightedMovingAverage::new(3).unwrap();
    let bar1 = Bar::new().close(lit(2.0));
    let bar2 = Bar::new().close(lit(5.0));
    assert_eq!(wma.next(&bar1), lit(2.0));
    assert_eq!(wma.next(&bar2), lit(4.0));
}

#[test]
fn weighted_moving_average_test_reset() {
    let mut wma = WeightedMovingAverage::new(5).unwrap();

    assert_eq!(wma.next(lit(4.0)), lit(4.0));
    wma.next(lit(10.0));
    wma.next(lit(15.0));
    wma.next(lit(20.0));
    assert_ne!(wma.next(lit(4.0)), lit(4.0));

    wma.reset();
    assert_eq!(wma.next(lit(4.0)), lit(4.0));
}

#[test]
fn weighted_moving_average_test_default() {
    WeightedMovingAverage::default();
}

#[test]
fn weighted_moving_average_test_display() {
    let wma = WeightedMovingAverage::new(7).unwrap();
    assert_eq!(wma.to_string(), "WMA(7)");
}

#[test]
fn hull_moving_average_test_new() {
    assert!(HullMovingAverage::new(0).is_err());
    assert!(HullMovingAverage::new(1).is_err());
    assert!(HullMovingAverage::new(2).is_ok());
    assert!(HullMovingAverage::new(9).is_ok());
}

#[test]
fn hull_moving_average_test_next() {
    let mut hma = HullMovingAverage::new(3).unwrap();

    assert_eq!(round(hma.next(lit(12.0))), 12.0);
    assert_eq!(round(hma.next(lit(9.0))), 8.0);
    assert_eq!(round(hma.next(lit(7.0))), 5.5);
    assert_eq!(round(hma.next(lit(13.0))), 15.667);

    let mut hma = HullMovingAverage::new(3).unwrap();
    let bar1 = Bar::new().close(lit(8.0));
    let bar2 = Bar::new().close(lit(5.0));
    assert_eq!(hma.next(&bar1), lit(8.0));
    assert_eq!(hma.next(&bar2), lit(4.0));
}

#[test]
fn hull_moving_average_test_reset() {
    let mut hma = HullMovingAverage::new(5).unwrap();

    assert_eq!(hma.next(lit(4.0)), lit(4.0));
    hma.next(lit(10.0));
    hma.next(lit(15.0));
    hma.next(lit(20.0));
    assert_ne!(hma.next(lit(4.0)), lit(4.0));

    hma.reset();
    assert_eq!(hma.next(lit(4.0)), lit(4.0));
}

#[test]
fn hull_moving_average_test_default() {
    HullMovingAverage::default();
}

#[test]
fn hull_moving_average_test_display() {
    let hma = HullMovingAverage::new(7).unwrap();
    assert_eq!(hma.to_string(), "HMA(7)");
}

#[test]
fn moving_average_convergence_divergence_test_new() {
    assert!(Macd::new(0, 1, 1).is_err());
    assert!(Macd::new(1, 0, 1).is_err());
    assert!(Macd::new(1, 1, 0).is_err());
    assert!(Macd::new(1, 1, 1).is_ok());
}

#[test]
fn test_macd() {
    let mut macd = Macd::new(3, 6, 4).unwrap();

    assert_eq!(round_macd(macd.next(lit(2.0))), (0.0, 0.0, 0.0));
    assert_eq!(round_macd(macd.next(lit(3.0))), (0.21, 0.09, 0.13));
    assert_eq!(round_macd(macd.next(lit(4.2))), (0.52, 0.26, 0.26));
    assert_eq!(round_macd(macd.next(lit(7.0))), (1.15, 0.62, 0.54));
    assert_eq!(round_macd(macd.next(lit(6.7))), (1.15, 0.83, 0.32));
    assert_eq!(round_macd(macd.next(lit(6.5))), (0.94, 0.87, 0.07));
}

#[test]
fn moving_average_convergence_divergence_test_reset() {
    let mut macd = Macd::new(3, 6, 4).unwrap();

    assert_eq!(round_macd(macd.next(lit(2.0))), (0.0, 0.0, 0.0));
    assert_eq!(round_macd(macd.next(lit(3.0))), (0.21, 0.09, 0.13));

    macd.reset();

    assert_eq!(round_macd(macd.next(lit(2.0))), (0.0, 0.0, 0.0));
    assert_eq!(round_macd(macd.next(lit(3.0))), (0.21, 0.09, 0.13));
}

#[test]
fn moving_average_convergence_divergence_test_default() {
    Macd::default();
}

#[test]
fn moving_average_convergence_divergence_test_display() {
    let indicator = Macd::new(13, 30, 10).unwrap();
    assert_eq!(indicator.to_string(), "MACD(13, 30, 10)");
}

#[test]
fn percentage_price_oscillator_test_new() {
    assert!(Ppo::new(0, 1, 1).is_err());
    assert!(Ppo::new(1, 0, 1).is_err());
    assert!(Ppo::new(1, 1, 0).is_err());
    assert!(Ppo::new(1, 1, 1).is_ok());
}

#[test]
fn percentage_price_oscillator_test_next() {
    let mut ppo = Ppo::new(3, 6, 4).unwrap();

    assert_eq!(round_ppo(ppo.next(lit(2.0))), (0.0, 0.0, 0.0));
    assert_eq!(round_ppo(ppo.next(lit(3.0))), (9.38, 3.75, 5.63));
    assert_eq!(round_ppo(ppo.next(lit(4.2))), (18.26, 9.56, 8.71));
    // The value here is exactly 28.625, which rounds away from zero.
    assert_eq!(round_ppo(ppo.next(lit(7.0))), (28.63, 17.18, 11.44));
    assert_eq!(round_ppo(ppo.next(lit(6.7))), (24.01, 19.91, 4.09));
    assert_eq!(round_ppo(ppo.next(lit(6.5))), (17.84, 19.08, -1.24));
}

#[test]
fn percentage_price_oscillator_test_reset() {
    let mut ppo = Ppo::new(3, 6, 4).unwrap();

    assert_eq!(round_ppo(ppo.next(lit(2.0))), (0.0, 0.0, 0.0));
    assert_eq!(round_ppo(ppo.next(lit(3.0))), (9.38, 3.75, 5.63));

    ppo.reset();

    assert_eq!(round_ppo(ppo.next(lit(2.0))), (0.0, 0.0, 0.0));
    assert_eq!(round_ppo(ppo.next(lit(3.0))), (9.38, 3.75, 5.63));
}

#[test]
fn percentage_price_oscillator_test_default() {
    Ppo::default();
}

#[test]
fn percentage_price_oscillator_test_display() {
    let indicator = Ppo::new(13, 30, 10).unwrap();
    assert_eq!(indicator.to_string(), "PPO(13, 30, 10)");
}
