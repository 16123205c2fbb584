use ta::errors::TaError;
use ta::indicators::{EfficiencyRatio, QuantitativeQualitativeEstimation, RateOfChange};
use ta::{max3, Bar, Close, DataItem, High, Low, Next, Num, Open, Reset, Volume};

fn lit(x: f64) -> Num {
    Num::from_raw((x * 1e12).round() as i128)
}

fn to_f64(x: Num) -> f64 {
    x.raw() as f64 / 1e12
}

fn round(x: Num) -> f64 {
    (to_f64(x) * 1000.0).round() / 1000.0
}

fn round2(x: Num) -> f64 {
    (to_f64(x) * 100.0).round() / 100.0
}

#[test]
fn test_max3() {
    assert_eq!(max3(lit(3.0), lit(2.0), lit(1.0)), lit(3.0));
    assert_eq!(max3(lit(2.0), lit(3.0), lit(1.0)), lit(3.0));
    assert_eq!(max3(lit(2.0), lit(1.0), lit(3.0)), lit(3.0));
}

#[test]
fn efficiency_ratio_test_new() {
    assert!(EfficiencyRatio::new(0).is_err());
    assert!(EfficiencyRatio::new(1).is_ok());
}

#[test]
fn efficiency_ratio_test_next() {
    let mut er = EfficiencyRatio::new(3).unwrap();

    assert_eq!(round(er.next(lit(3.0))), 1.0);
    assert_eq!(round(er.next(lit(5.0))), 1.0);
    assert_eq!(round(er.next(lit(2.0))), 0.2);
    assert_eq!(round(er.next(lit(3.0))), 0.0);
    assert_eq!(round(er.next(lit(1.0))), 0.667);
    assert_eq!(round(er.next(lit(3.0))), 0.2);
    assert_eq!(round(er.next(lit(4.0))), 0.2);
    assert_eq!(round(er.next(lit(6.0))), 1.0);
}

#[test]
fn efficiency_ratio_test_reset() {
    let mut er = EfficiencyRatio::new(3).unwrap();

    er.next(lit(3.0));
    er.next(lit(5.0));

    er.reset();

    assert_eq!(round(er.next(lit(3.0))), 1.0);
    assert_eq!(round(er.next(lit(5.0))), 1.0);
    assert_eq!(round(er.next(lit(2.0))), 0.2);
    assert_eq!(round(er.next(lit(3.0))), 0.0);
}

#[test]
fn efficiency_ratio_test_display() {
    let er = EfficiencyRatio::new(17).unwrap();
    assert_eq!(er.to_string(), "ER(17)");
}

#[test]
fn rate_of_change_test_new() {
    assert!(RateOfChange::new(0).is_err());
    assert!(RateOfChange::new(1).is_ok());
    assert!(RateOfChange::new(100_000).is_ok());
}

#[test]
fn rate_of_change_test_next_f64() {
    let mut roc = RateOfChange::new(3).unwrap();

    assert_eq!(round(roc.next(lit(10.0))), 0.0);
    assert_eq!(round(roc.next(lit(10.4))), 4.0);
    assert_eq!(round(roc.next(lit(10.57))), 5.7);
    assert_eq!(round(roc.next(lit(10.8))), 8.0);
    assert_eq!(round(roc.next(lit(10.9))), 4.808);
    assert_eq!(round(roc.next(lit(10.0))), -5.393);
}

#[test]
fn rate_of_change_test_next_bar() {
    fn bar(close: f64) -> Bar {
        Bar::new().close(lit(close))
    }

    let mut roc = RateOfChange::new(3).unwrap();

    assert_eq!(round(roc.next(&bar(10.0))), 0.0);
    assert_eq!(round(roc.next(&bar(10.4))), 4.0);
    assert_eq!(round(roc.next(&bar(10.57))), 5.7);
}

#[test]
fn rate_of_change_test_reset() {
    let mut roc = RateOfChange::new(3).unwrap();

    roc.next(lit(12.3));
    roc.next(lit(15.0));

    roc.reset();

    assert_eq!(round(roc.next(lit(10.0))), 0.0);
    assert_eq!(round(roc.next(lit(10.4))), 4.0);
    assert_eq!(round(roc.next(lit(10.57))), 5.7);
}

type Qqe = QuantitativeQualitativeEstimation;

fn round_qqe(o: ta::indicators::QuantitativeQualitativeEstimationOutput) -> (f64, f64) {
    (round2(o.rsi_ma), round2(o.qqe_combined))
}

#[test]
fn quantitative_qualitative_estimation_test_new() {
    assert!(Qqe::new(0, 5, lit(4.236)).is_err());
    assert!(Qqe::new(14, 0, lit(4.236)).is_err());
    assert!(Qqe::new(14, 5, lit(0.0)).is_err());
    assert!(Qqe::new(14, 5, lit(0.5)).is_err());
    assert!(Qqe::new(14, 5, lit(-4.236)).is_err());
    assert!(Qqe::new(3, 3, lit(2.0)).is_ok());
    assert!(Qqe::new(14, 3, lit(5.45)).is_ok());
}

#[test]
fn quantitative_qualitative_estimation_test_next() {
    let mut qqe = Qqe::new(5, 5, lit(4.236)).unwrap();

    let feed_vals = vec![3.0, 4.0, 6.0, 2.0, 3.0, 4.0, 5.6, 2.0, 1.0];
    for val in feed_vals {
        qqe.next(lit(val));
    }

    assert_eq!(round_qqe(qqe.next(lit(2.3))), (44.52, 24.53));
    assert_eq!(round_qqe(qqe.next(lit(1.4))), (41.78, 21.73));
    assert_eq!(round_qqe(qqe.next(lit(2.2))), (44.71, 24.92));

    let bar1 = Bar::new().close(lit(4.0));
    let bar2 = Bar::new().close(lit(2.0));
    assert_eq!(round_qqe(qqe.next(&bar1)), (53.75, 33.39));
    assert_eq!(round_qqe(qqe.next(&bar2)), (49.78, 29.19));
}

#[test]
fn quantitative_qualitative_estimation_test_reset() {
    let mut qqe = Qqe::new(5, 5, lit(3.0)).unwrap();

    assert_eq!(round_qqe(qqe.next(lit(4.0))), (50.0, 50.0));
    qqe.next(lit(10.0));
    qqe.next(lit(15.0));
    qqe.next(lit(20.0));
    assert_ne!(round_qqe(qqe.next(lit(4.0))), (50.0, 50.0));

    qqe.reset();
    assert_eq!(round_qqe(qqe.next(lit(4.0))), (50.0, 50.0));
}

#[test]
fn quantitative_qualitative_estimation_test_default() {
    Qqe::default();
}

#[test]
fn quantitative_qualitative_estimation_test_display() {
    let qqe = Qqe::new(7, 3, lit(5.33)).unwrap();
    assert_eq!(qqe.to_string(), "QQE(7, 3, 5.33)");
}

#[test]
fn test_builder() {
    fn assert_valid(record: (f64, f64, f64, f64, f64)) {
        let (open, high, low, close, volume) = record;
        let result = DataItem::builder()
            .open(lit(open))
            .high(lit(high))
            .low(lit(low))
            .close(lit(close))
            .volume(lit(volume))
            .build();
        assert!(result.is_ok());
    }

    fn assert_invalid(record: (f64, f64, f64, f64, f64)) {
        let (open, high, low, close, volume) = record;
        let result = DataItem::builder()
            .open(lit(open))
            .high(lit(high))
            .low(lit(low))
            .close(lit(close))
            .volume(lit(volume))
            .build();
        assert_eq!(result, Err(TaError::DataItemInvalid));
    }

    let valid_records = vec![
        // open, high, low , close, volume
        (20.0, 25.0, 15.0, 21.0, 7500.0),
        (10.0, 10.0, 10.0, 10.0, 10.0),
        (0.0, 0.0, 0.0, 0.0, 0.0),
    ];
    for record in valid_records {
        assert_valid(record)
    }

    let invalid_records = vec![
        // open, high, low , close, volume
        (-1.0, 25.0, 15.0, 21.0, 7500.0),
        (20.0, -1.0, 15.0, 21.0, 7500.0),
        (20.0, 25.0, 15.0, -1.0, 7500.0),
        (20.0, 25.0, 15.0, 21.0, -1.0),
        (14.9, 25.0, 15.0, 21.0, 7500.0),
        (25.1, 25.0, 15.0, 21.0, 7500.0),
        (20.0, 25.0, 15.0, 14.9, 7500.0),
        (20.0, 25.0, 15.0, 25.1, 7500.0),
        (20.0, 15.0, 25.0, 21.0, 7500.0),
    ];
    for record in invalid_records {
        assert_invalid(record)
    }
}

#[test]
fn test_builder_incomplete() {
    let result = DataItem::builder().open(lit(20.0)).high(lit(25.0)).build();
    assert_eq!(result, Err(TaError::DataItemIncomplete));
}

#[test]
fn test_data_item_accessors() {
    let item = DataItem::builder()
        .open(lit(20.0))
        .high(lit(25.0))
        .low(lit(15.0))
        .close(lit(21.0))
        .volume(lit(7500.0))
        .build()
        .unwrap();

    assert_eq!(item.open(), lit(20.0));
    assert_eq!(item.high(), lit(25.0));
    assert_eq!(item.low(), lit(15.0));
    assert_eq!(item.close(), lit(21.0));
    assert_eq!(item.volume(), lit(7500.0));
}
