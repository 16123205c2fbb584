use ta::indicators::{
    AverageTrueRange, BollingerBands, ChandelierExit, KeltnerChannel, MeanAbsoluteDeviation,
    StandardDeviation, TrueRange,
};
use ta::{Bar, Next, Num, Reset};

fn lit(x: f64) -> Num {
    Num::from_raw((x * 1e12).round() as i128)
}

fn to_f64(x: Num) -> f64 {
    x.raw() as f64 / 1e12
}

fn round(x: Num) -> f64 {
    (to_f64(x) * 1000.0).round() / 1000.0
}

fn round2(x: Num) -> f64 {
    (to_f64(x) * 100.0).round() / 100.0
}

type Ce = ChandelierExit;

fn round_ce(o: ta::indicators::ChandelierExitOutput) -> (f64, f64) {
    (round2(o.long), round2(o.short))
}

#[test]
fn standard_deviation_test_new() {
    assert!(StandardDeviation::new(0).is_err());
    assert!(StandardDeviation::new(1).is_ok());
}

#[test]
fn standard_deviation_test_next() {
    let mut sd = StandardDeviation::new(4).unwrap();
    assert_eq!(sd.next(lit(10.0)), lit(0.0));
    assert_eq!(sd.next(lit(20.0)), lit(5.0));
    assert_eq!(round(sd.next(lit(30.0))), 8.165);
    assert_eq!(round(sd.next(lit(20.0))), 7.071);
    assert_eq!(round(sd.next(lit(10.0))), 7.071);
    assert_eq!(round(sd.next(lit(100.0))), 35.355);
}

#[test]
fn test_next_floating_point_error() {
    let mut sd = StandardDeviation::new(6).unwrap();
    assert_eq!(sd.next(lit(1.872)), lit(0.0));
    assert_eq!(round(sd.next(lit(1.0))), 0.436);
    assert_eq!(round(sd.next(lit(1.0))), 0.411);
    assert_eq!(round(sd.next(lit(1.0))), 0.378);
    assert_eq!(round(sd.next(lit(1.0))), 0.349);
    assert_eq!(round(sd.next(lit(1.0))), 0.325);
    assert_eq!(round(sd.next(lit(1.0))), 0.0);
}

#[test]
fn standard_deviation_test_next_with_bars() {
    fn bar(close: f64) -> Bar {
        Bar::new().close(lit(close))
    }

    let mut sd = StandardDeviation::new(4).unwrap();
    assert_eq!(sd.next(&bar(10.0)), lit(0.0));
    assert_eq!(sd.next(&bar(20.0)), lit(5.0));
    assert_eq!(round(sd.next(&bar(30.0))), 8.165);
    assert_eq!(round(sd.next(&bar(20.0))), 7.071);
    assert_eq!(round(sd.next(&bar(10.0))), 7.071);
    assert_eq!(round(sd.next(&bar(100.0))), 35.355);
}

#[test]
fn test_next_same_values() {
    let mut sd = StandardDeviation::new(3).unwrap();
    assert_eq!(sd.next(lit(4.2)), lit(0.0));
    assert_eq!(sd.next(lit(4.2)), lit(0.0));
    assert_eq!(sd.next(lit(4.2)), lit(0.0));
    assert_eq!(sd.next(lit(4.2)), lit(0.0));
}

#[test]
fn standard_deviation_test_reset() {
    let mut sd = StandardDeviation::new(4).unwrap();
    assert_eq!(sd.next(lit(10.0)), lit(0.0));
    assert_eq!(sd.next(lit(20.0)), lit(5.0));
    assert_eq!(round(sd.next(lit(30.0))), 8.165);

    sd.reset();
    assert_eq!(sd.next(lit(20.0)), lit(0.0));
}

#[test]
fn standard_deviation_test_default() {
    StandardDeviation::default();
}

#[test]
fn standard_deviation_test_display() {
    let sd = StandardDeviation::new(5).unwrap();
    assert_eq!(sd.to_string(), "SD(5)");
}

#[test]
fn mean_absolute_deviation_test_new() {
    assert!(MeanAbsoluteDeviation::new(0).is_err());
    assert!(MeanAbsoluteDeviation::new(1).is_ok());
}

#[test]
fn mean_absolute_deviation_test_next() {
    let mut mad = MeanAbsoluteDeviation::new(5).unwrap();

    assert_eq!(round(mad.next(lit(1.5))), 0.0);
    assert_eq!(round(mad.next(lit(4.0))), 1.25);
    assert_eq!(round(mad.next(lit(8.0))), 2.333);
    assert_eq!(round(mad.next(lit(4.0))), 1.813);
    assert_eq!(round(mad.next(lit(4.0))), 1.48);
    assert_eq!(round(mad.next(lit(1.5))), 1.48);
}

#[test]
fn mean_absolute_deviation_test_reset() {
    let mut mad = MeanAbsoluteDeviation::new(5).unwrap();

    assert_eq!(round(mad.next(lit(1.5))), 0.0);
    assert_eq!(round(mad.next(lit(4.0))), 1.25);

    mad.reset();

    assert_eq!(round(mad.next(lit(1.5))), 0.0);
    assert_eq!(round(mad.next(lit(4.0))), 1.25);
}

#[test]
fn mean_absolute_deviation_test_default() {
    MeanAbsoluteDeviation::default();
}

#[test]
fn mean_absolute_deviation_test_display() {
    let indicator = MeanAbsoluteDeviation::new(10).unwrap();
    assert_eq!(indicator.to_string(), "MAD(10)");
}

#[test]
fn true_range_test_next_f64() {
    let mut tr = TrueRange::new();
    assert_eq!(round(tr.next(lit(2.5))), 0.0);
    assert_eq!(round(tr.next(lit(3.6))), 1.1);
    assert_eq!(round(tr.next(lit(3.3))), 0.3);
}

#[test]
fn true_range_test_next_bar() {
    let mut tr = TrueRange::new();

    let bar1 = Bar::new().high(lit(10.0)).low(lit(7.5)).close(lit(9.0));
    let bar2 = Bar::new().high(lit(11.0)).low(lit(9.0)).close(lit(9.5));
    let bar3 = Bar::new().high(lit(9.0)).low(lit(5.0)).close(lit(8.0));

    assert_eq!(tr.next(&bar1), lit(2.5));
    assert_eq!(tr.next(&bar2), lit(2.0));
    assert_eq!(tr.next(&bar3), lit(4.5));
}

#[test]
fn true_range_test_reset() {
    let mut tr = TrueRange::new();

    let bar1 = Bar::new().high(lit(10.0)).low(lit(7.5)).close(lit(9.0));
    let bar2 = Bar::new().high(lit(11.0)).low(lit(9.0)).close(lit(9.5));

    tr.next(&bar1);
    tr.next(&bar2);

    tr.reset();
    let bar3 = Bar::new().high(lit(60.0)).low(lit(15.0)).close(lit(51.0));
    assert_eq!(tr.next(&bar3), lit(45.0));
}

#[test]
fn true_range_test_default() {
    TrueRange::default();
}

#[test]
fn true_range_test_display() {
    let indicator = TrueRange::new();
    assert_eq!(indicator.to_string(), "TRUE_RANGE()");
}

#[test]
fn average_true_range_test_new() {
    assert!(AverageTrueRange::new(0).is_err());
    assert!(AverageTrueRange::new(1).is_ok());
}

#[test]
fn average_true_range_test_next() {
    let mut atr = AverageTrueRange::new(3).unwrap();

    let bar1 = Bar::new().high(lit(10.0)).low(lit(7.5)).close(lit(9.0));
    let bar2 = Bar::new().high(lit(11.0)).low(lit(9.0)).close(lit(9.5));
    let bar3 = Bar::new().high(lit(9.0)).low(lit(5.0)).close(lit(8.0));

    assert_eq!(atr.next(&bar1), lit(2.5));
    assert_eq!(atr.next(&bar2), lit(2.25));
    assert_eq!(atr.next(&bar3), lit(3.375));
}

#[test]
fn average_true_range_test_reset() {
    let mut atr = AverageTrueRange::new(9).unwrap();

    let bar1 = Bar::new().high(lit(10.0)).low(lit(7.5)).close(lit(9.0));
    let bar2 = Bar::new().high(lit(11.0)).low(lit(9.0)).close(lit(9.5));

    atr.next(&bar1);
    atr.next(&bar2);

    atr.reset();
    let bar3 = Bar::new().high(lit(60.0)).low(lit(15.0)).close(lit(51.0));
    assert_eq!(atr.next(&bar3), lit(45.0));
}

#[test]
fn average_true_range_test_default() {
    AverageTrueRange::default();
}

#[test]
fn average_true_range_test_display() {
    let indicator = AverageTrueRange::new(8).unwrap();
    assert_eq!(indicator.to_string(), "ATR(8)");
}

#[test]
fn bollinger_bands_test_new() {
    assert!(BollingerBands::new(0, lit(2.0)).is_err());
    assert!(BollingerBands::new(1, lit(2.0)).is_ok());
    assert!(BollingerBands::new(2, lit(2.0)).is_ok());
}

#[test]
fn test_band_factories_reject_bad_multipliers() {
    assert!(BollingerBands::new(3, lit(0.0)).is_err());
    assert!(BollingerBands::new(3, lit(-2.0)).is_err());
    assert!(KeltnerChannel::new(3, lit(0.0)).is_err());
    assert!(KeltnerChannel::new(3, lit(-2.0)).is_err());
    assert!(Ce::new(3, lit(0.0)).is_err());
    assert!(Ce::new(3, lit(-1.0)).is_err());
}

#[test]
fn bollinger_bands_test_next() {
    let mut bb = BollingerBands::new(3, lit(2.0)).unwrap();

    let a = bb.next(lit(2.0));
    let b = bb.next(lit(5.0));
    let c = bb.next(lit(1.0));
    let d = bb.next(lit(6.25));

    assert_eq!(round(a.average), 2.0);
    assert_eq!(round(b.average), 3.5);
    assert_eq!(round(c.average), 2.667);
    assert_eq!(round(d.average), 4.083);

    assert_eq!(round(a.upper), 2.0);
    assert_eq!(round(b.upper), 6.5);
    assert_eq!(round(c.upper), 6.066);
    assert_eq!(round(d.upper), 8.562);

    assert_eq!(round(a.lower), 2.0);
    assert_eq!(round(b.lower), 0.5);
    assert_eq!(round(c.lower), -0.733);
    assert_eq!(round(d.lower), -0.395);
}

#[test]
fn bollinger_bands_test_reset() {
    let mut bb = BollingerBands::new(5, lit(2.0)).unwrap();

    let out = bb.next(lit(3.0));

    assert_eq!(out.average, lit(3.0));
    assert_eq!(out.upper, lit(3.0));
    assert_eq!(out.lower, lit(3.0));

    bb.next(lit(2.5));
    bb.next(lit(3.5));
    bb.next(lit(4.0));

    let out = bb.next(lit(2.0));

    assert_eq!(out.average, lit(3.0));
    assert_eq!(round(out.upper), 4.414);
    assert_eq!(round(out.lower), 1.586);

    bb.reset();
    let out = bb.next(lit(3.0));
    assert_eq!(out.average, lit(3.0));
    assert_eq!(out.upper, lit(3.0));
    assert_eq!(out.lower, lit(3.0));
}

#[test]
fn bollinger_bands_test_default() {
    BollingerBands::default();
}

#[test]
fn bollinger_bands_test_display() {
    let bb = BollingerBands::new(10, lit(3.0)).unwrap();
    assert_eq!(bb.to_string(), "BB(10, 3)");
}

#[test]
fn keltner_channel_test_new() {
    assert!(KeltnerChannel::new(0, lit(2.0)).is_err());
    assert!(KeltnerChannel::new(1, lit(2.0)).is_ok());
    assert!(KeltnerChannel::new(2, lit(2.0)).is_ok());
}

#[test]
fn keltner_channel_test_next() {
    let mut kc = KeltnerChannel::new(3, lit(2.0)).unwrap();

    let a = kc.next(lit(2.0));
    let b = kc.next(lit(5.0));
    let c = kc.next(lit(1.0));
    let d = kc.next(lit(6.25));

    assert_eq!(round(a.average), 2.0);
    assert_eq!(round(b.average), 3.5);
    assert_eq!(round(c.average), 2.25);
    assert_eq!(round(d.average), 4.25);

    assert_eq!(round(a.upper), 2.0);
    assert_eq!(round(b.upper), 6.5);
    assert_eq!(round(c.upper), 7.75);
    assert_eq!(round(d.upper), 12.25);

    assert_eq!(round(a.lower), 2.0);
    assert_eq!(round(b.lower), 0.5);
    assert_eq!(round(c.lower), -3.25);
    assert_eq!(round(d.lower), -3.75);
}

#[test]
fn test_next_with_data_item() {
    let mut kc = KeltnerChannel::new(3, lit(2.0)).unwrap();

    let dt1 = Bar::new().low(lit(1.2)).high(lit(1.7)).close(lit(1.3)); // typical_price = 1.4
    let o1 = kc.next(&dt1);
    assert_eq!(round(o1.average), 1.4);
    assert_eq!(round(o1.lower), 0.4);
    assert_eq!(round(o1.upper), 2.4);

    let dt2 = Bar::new().low(lit(1.3)).high(lit(1.8)).close(lit(1.4)); // typical_price = 1.5
    let o2 = kc.next(&dt2);
    assert_eq!(round(o2.average), 1.45);
    assert_eq!(round(o2.lower), 0.45);
    assert_eq!(round(o2.upper), 2.45);

    let dt3 = Bar::new().low(lit(1.4)).high(lit(1.9)).close(lit(1.5)); // typical_price = 1.6
    let o3 = kc.next(&dt3);
    assert_eq!(round(o3.average), 1.525);
    assert_eq!(round(o3.lower), 0.525);
    assert_eq!(round(o3.upper), 2.525);
}

#[test]
fn keltner_channel_test_reset() {
    let mut kc = KeltnerChannel::new(5, lit(2.0)).unwrap();

    let out = kc.next(lit(3.0));

    assert_eq!(out.average, lit(3.0));
    assert_eq!(out.upper, lit(3.0));
    assert_eq!(out.lower, lit(3.0));

    kc.next(lit(2.5));
    kc.next(lit(3.5));
    kc.next(lit(4.0));

    let out = kc.next(lit(2.0));

    assert_eq!(round(out.average), 2.914);
    assert_eq!(round(out.upper), 4.864);
    assert_eq!(round(out.lower), 0.963);

    kc.reset();
    let out = kc.next(lit(3.0));
    assert_eq!(out.average, lit(3.0));
    assert_eq!(out.lower, lit(3.0));
    assert_eq!(out.upper, lit(3.0));
}

#[test]
fn keltner_channel_test_default() {
    KeltnerChannel::default();
}

#[test]
fn keltner_channel_test_display() {
    let kc = KeltnerChannel::new(10, lit(3.0)).unwrap();
    assert_eq!(kc.to_string(), "KC(10, 3)");
}

#[test]
fn chandelier_exit_test_new() {
    assert!(Ce::new(0, lit(0.0)).is_err());
    assert!(Ce::new(1, lit(1.0)).is_ok());
    assert!(Ce::new(22, lit(3.0)).is_ok());
}

#[test]
fn chandelier_exit_test_next_bar() {
    let mut ce = Ce::new(5, lit(2.0)).unwrap();

    let bar1 = Bar::new().high(lit(2.0)).low(lit(1.0)).close(lit(1.5));
    assert_eq!(round_ce(ce.next(&bar1)), (0.0, 3.0));

    let bar2 = Bar::new().high(lit(5.0)).low(lit(3.0)).close(lit(4.0));
    assert_eq!(round_ce(ce.next(&bar2)), (1.33, 4.67));

    let bar3 = Bar::new().high(lit(9.0)).low(lit(7.0)).close(lit(8.0));
    assert_eq!(round_ce(ce.next(&bar3)), (3.22, 6.78));

    let bar4 = Bar::new().high(lit(5.0)).low(lit(3.0)).close(lit(4.0));
    assert_eq!(round_ce(ce.next(&bar4)), (1.81, 8.19));

    let bar5 = Bar::new().high(lit(5.0)).low(lit(3.0)).close(lit(4.0));
    assert_eq!(round_ce(ce.next(&bar5)), (2.88, 7.12));

    let bar6 = Bar::new().high(lit(2.0)).low(lit(1.0)).close(lit(1.5));
    assert_eq!(round_ce(ce.next(&bar6)), (2.92, 7.08));
}

#[test]
fn chandelier_exit_test_reset() {
    let mut ce = Ce::new(5, lit(2.0)).unwrap();

    let bar1 = Bar::new().high(lit(2.0)).low(lit(1.0)).close(lit(1.5));
    let bar2 = Bar::new().high(lit(5.0)).low(lit(3.0)).close(lit(4.0));

    assert_eq!(round_ce(ce.next(&bar1)), (0.0, 3.0));
    assert_eq!(round_ce(ce.next(&bar2)), (1.33, 4.67));

    ce.reset();

    assert_eq!(round_ce(ce.next(&bar1)), (0.0, 3.0));
    assert_eq!(round_ce(ce.next(&bar2)), (1.33, 4.67));
}

#[test]
fn chandelier_exit_test_default() {
    Ce::default();
}

#[test]
fn chandelier_exit_test_display() {
    let indicator = Ce::new(10, lit(5.0)).unwrap();
    assert_eq!(indicator.to_string(), "CE(10, 5)");
}
