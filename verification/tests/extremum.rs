use ta::indicators::{Maximum, Minimum};
use ta::{Bar, Next, Num, Reset};

fn lit(x: f64) -> Num {
    Num::from_raw((x * 1e12).round() as i128)
}

#[test]
fn maximum_test_new() {
    assert!(Maximum::new(0).is_err());
    assert!(Maximum::new(1).is_ok());
}

#[test]
fn maximum_test_next() {
    let mut max = Maximum::new(3).unwrap();

    assert_eq!(max.next(lit(4.0)), lit(4.0));
    assert_eq!(max.next(lit(1.2)), lit(4.0));
    assert_eq!(max.next(lit(5.0)), lit(5.0));
    assert_eq!(max.next(lit(3.0)), lit(5.0));
    assert_eq!(max.next(lit(4.0)), lit(5.0));
    assert_eq!(max.next(lit(0.0)), lit(4.0));
    assert_eq!(max.next(lit(-1.0)), lit(4.0));
    assert_eq!(max.next(lit(-2.0)), lit(0.0));
    assert_eq!(max.next(lit(-1.5)), lit(-1.0));
}

#[test]
fn maximum_test_next_with_bars() {
    fn bar(high: f64) -> Bar {
        Bar::new().high(lit(high))
    }

    let mut max = Maximum::new(2).unwrap();

    assert_eq!(max.next(&bar(1.1)), lit(1.1));
    assert_eq!(max.next(&bar(4.0)), lit(4.0));
    assert_eq!(max.next(&bar(3.5)), lit(4.0));
    assert_eq!(max.next(&bar(2.0)), lit(3.5));
}

#[test]
fn maximum_test_reset() {
    let mut max = Maximum::new(100).unwrap();
    assert_eq!(max.next(lit(4.0)), lit(4.0));
    assert_eq!(max.next(lit(10.0)), lit(10.0));
    assert_eq!(max.next(lit(4.0)), lit(10.0));

    max.reset();
    assert_eq!(max.next(lit(4.0)), lit(4.0));
}

#[test]
fn maximum_test_default() {
    Maximum::default();
}

#[test]
fn maximum_test_display() {
    let indicator = Maximum::new(7).unwrap();
    assert_eq!(indicator.to_string(), "MAX(7)");
}

#[test]
fn minimum_test_new() {
    assert!(Minimum::new(0).is_err());
    assert!(Minimum::new(1).is_ok());
}

#[test]
fn minimum_test_next() {
    let mut min = Minimum::new(3).unwrap();

    assert_eq!(min.next(lit(4.0)), lit(4.0));
    assert_eq!(min.next(lit(1.2)), lit(1.2));
    assert_eq!(min.next(lit(5.0)), lit(1.2));
    assert_eq!(min.next(lit(3.0)), lit(1.2));
    assert_eq!(min.next(lit(4.0)), lit(3.0));
    assert_eq!(min.next(lit(6.0)), lit(3.0));
    assert_eq!(min.next(lit(7.0)), lit(4.0));
    assert_eq!(min.next(lit(8.0)), lit(6.0));
    assert_eq!(min.next(lit(-9.0)), lit(-9.0));
    assert_eq!(min.next(lit(0.0)), lit(-9.0));
}

#[test]
fn minimum_test_next_with_bars() {
    fn bar(low: f64) -> Bar {
        Bar::new().low(lit(low))
    }

    let mut min = Minimum::new(3).unwrap();

    assert_eq!(min.next(&bar(4.0)), lit(4.0));
    assert_eq!(min.next(&bar(4.0)), lit(4.0));
    assert_eq!(min.next(&bar(1.2)), lit(1.2));
    assert_eq!(min.next(&bar(5.0)), lit(1.2));
}

#[test]
fn minimum_test_reset() {
    let mut min = Minimum::new(10).unwrap();

    assert_eq!(min.next(lit(5.0)), lit(5.0));
    assert_eq!(min.next(lit(7.0)), lit(5.0));

    min.reset();
    assert_eq!(min.next(lit(8.0)), lit(8.0));
}

#[test]
fn minimum_test_default() {
    Minimum::default();
}

#[test]
fn minimum_test_display() {
    let indicator = Minimum::new(10).unwrap();
    assert_eq!(indicator.to_string(), "MIN(10)");
}
