use ta::indicators::{
    CommodityChannelIndex, MoneyFlowIndex, OnBalanceVolume, VolumeWeightedAveragePrice,
    VolumeWeightedAveragePriceBands,
};
use ta::{Bar, DataItem, Next, Num, Reset};

fn lit(x: f64) -> Num {
    Num::from_raw((x * 1e12).round() as i128)
}

fn to_f64(x: Num) -> f64 {
    x.raw() as f64 / 1e12
}

fn round(x: Num) -> f64 {
    (to_f64(x) * 1000.0).round() / 1000.0
}

fn approx(a: Num, b: f64, eps: f64) {
    let d = (to_f64(a) - b).abs();
    assert!(d < eps, "{} is not within {} of {}", to_f64(a), eps, b);
}

#[test]
fn commodity_channel_index_test_new() {
    assert!(CommodityChannelIndex::new(0).is_err());
    assert!(CommodityChannelIndex::new(1).is_ok());
}

#[test]
fn commodity_channel_index_test_next_bar() {
    let mut cci = CommodityChannelIndex::new(5).unwrap();

    let bar1 = Bar::new().high(lit(2.0)).low(lit(1.0)).close(lit(1.5));
    assert_eq!(round(cci.next(&bar1)), 0.0);

    let bar2 = Bar::new().high(lit(5.0)).low(lit(3.0)).close(lit(4.0));
    assert_eq!(round(cci.next(&bar2)), 66.667);

    let bar3 = Bar::new().high(lit(9.0)).low(lit(7.0)).close(lit(8.0));
    assert_eq!(round(cci.next(&bar3)), 100.0);

    let bar4 = Bar::new().high(lit(5.0)).low(lit(3.0)).close(lit(4.0));
    assert_eq!(round(cci.next(&bar4)), -13.793);

    let bar5 = Bar::new().high(lit(5.0)).low(lit(3.0)).close(lit(4.0));
    assert_eq!(round(cci.next(&bar5)), -13.514);

    let bar6 = Bar::new().high(lit(2.0)).low(lit(1.0)).close(lit(1.5));
    assert_eq!(round(cci.next(&bar6)), -126.126);
}

#[test]
fn commodity_channel_index_test_reset() {
    let mut cci = CommodityChannelIndex::new(5).unwrap();

    let bar1 = Bar::new().high(lit(2.0)).low(lit(1.0)).close(lit(1.5));
    let bar2 = Bar::new().high(lit(5.0)).low(lit(3.0)).close(lit(4.0));

    assert_eq!(round(cci.next(&bar1)), 0.0);
    assert_eq!(round(cci.next(&bar2)), 66.667);

    cci.reset();

    assert_eq!(round(cci.next(&bar1)), 0.0);
    assert_eq!(round(cci.next(&bar2)), 66.667);
}

#[test]
fn commodity_channel_index_test_default() {
    CommodityChannelIndex::default();
}

#[test]
fn commodity_channel_index_test_display() {
    let indicator = CommodityChannelIndex::new(10).unwrap();
    assert_eq!(indicator.to_string(), "CCI(10)");
}

#[test]
fn money_flow_index_test_new() {
    assert!(MoneyFlowIndex::new(0).is_err());
    assert!(MoneyFlowIndex::new(1).is_ok());
}

#[test]
fn money_flow_index_test_next_bar() {
    let mut mfi = MoneyFlowIndex::new(3).unwrap();

    let bar1 = Bar::new().high(lit(3.0)).low(lit(1.0)).close(lit(2.0)).volume(lit(500.0));
    assert_eq!(round(mfi.next(&bar1)), 50.0);

    let bar2 = Bar::new().high(lit(2.3)).low(lit(2.0)).close(lit(2.3)).volume(lit(1000.0));
    assert_eq!(round(mfi.next(&bar2)), 100.0);

    let bar3 = Bar::new().high(lit(9.0)).low(lit(7.0)).close(lit(8.0)).volume(lit(200.0));
    assert_eq!(round(mfi.next(&bar3)), 100.0);

    let bar4 = Bar::new().high(lit(5.0)).low(lit(3.0)).close(lit(4.0)).volume(lit(500.0));
    assert_eq!(round(mfi.next(&bar4)), 65.517);

    let bar5 = Bar::new().high(lit(4.0)).low(lit(2.0)).close(lit(3.0)).volume(lit(5000.0));
    assert_eq!(round(mfi.next(&bar5)), 8.602);

    let bar6 = Bar::new().high(lit(2.0)).low(lit(1.0)).close(lit(1.5)).volume(lit(6000.0));
    assert_eq!(round(mfi.next(&bar6)), 0.0);

    let bar7 = Bar::new().high(lit(2.0)).low(lit(2.0)).close(lit(2.0)).volume(lit(7000.0));
    assert_eq!(round(mfi.next(&bar7)), 36.842);

    let bar8 = Bar::new().high(lit(2.0)).low(lit(2.0)).close(lit(2.0)).volume(lit(7000.0));
    assert_eq!(round(mfi.next(&bar8)), 60.87);
}

#[test]
fn money_flow_index_test_reset() {
    let mut mfi = MoneyFlowIndex::new(3).unwrap();

    let bar1 = Bar::new().high(lit(3.0)).low(lit(1.0)).close(lit(2.0)).volume(lit(500.0));
    let bar2 = Bar::new().high(lit(2.3)).low(lit(2.0)).close(lit(2.3)).volume(lit(1000.0));

    assert_eq!(round(mfi.next(&bar1)), 50.0);
    assert_eq!(round(mfi.next(&bar2)), 100.0);

    mfi.reset();

    assert_eq!(round(mfi.next(&bar1)), 50.0);
    assert_eq!(round(mfi.next(&bar2)), 100.0);
}

#[test]
fn money_flow_index_test_default() {
    MoneyFlowIndex::default();
}

#[test]
fn money_flow_index_test_display() {
    let mfi = MoneyFlowIndex::new(10).unwrap();
    assert_eq!(mfi.to_string(), "MFI(10)");
}

#[test]
fn on_balance_volume_test_next_bar() {
    let mut obv = OnBalanceVolume::new();

    let bar1 = Bar::new().close(lit(1.5)).volume(lit(1000.0));
    let bar2 = Bar::new().close(lit(5.0)).volume(lit(5000.0));
    let bar3 = Bar::new().close(lit(4.0)).volume(lit(9000.0));
    let bar4 = Bar::new().close(lit(4.0)).volume(lit(4000.0));

    assert_eq!(obv.next(&bar1), lit(1000.0));

    // close > prev_close
    assert_eq!(obv.next(&bar2), lit(6000.0));

    // close < prev_close
    assert_eq!(obv.next(&bar3), lit(-3000.0));

    // close == prev_close
    assert_eq!(obv.next(&bar4), lit(-3000.0));
}

#[test]
fn on_balance_volume_test_reset() {
    let mut obv = OnBalanceVolume::new();

    let bar1 = Bar::new().close(lit(1.5)).volume(lit(1000.0));
    let bar2 = Bar::new().close(lit(4.0)).volume(lit(2000.0));
    let bar3 = Bar::new().close(lit(8.0)).volume(lit(3000.0));

    assert_eq!(obv.next(&bar1), lit(1000.0));
    assert_eq!(obv.next(&bar2), lit(3000.0));
    assert_eq!(obv.next(&bar3), lit(6000.0));

    obv.reset();

    assert_eq!(obv.next(&bar1), lit(1000.0));
    assert_eq!(obv.next(&bar2), lit(3000.0));
    assert_eq!(obv.next(&bar3), lit(6000.0));
}

#[test]
fn on_balance_volume_test_default() {
    OnBalanceVolume::default();
}

#[test]
fn on_balance_volume_test_display() {
    let obv = OnBalanceVolume::new();
    assert_eq!(obv.to_string(), "OBV");
}

fn generate_bar(record: (f64, f64, f64, f64, f64)) -> DataItem {
    let (open, high, low, close, volume) = record;
    DataItem::builder()
        .open(lit(open))
        .high(lit(high))
        .low(lit(low))
        .close(lit(close))
        .volume(lit(volume))
        .build()
        .unwrap()
}

#[test]
fn volume_weighted_average_price_test_next() {
    let data = vec![
        // open, high, low, close, volume, vwap
        (150.39, 150.39, 150.22, 150.31, 380.0, 150.31),
        (150.47, 150.47, 150.38, 150.41, 5270.0, 150.41),
        (150.49, 150.49, 150.33, 150.46, 990.0, 150.41),
        (150.63, 150.63, 150.44, 150.61, 1031.0, 150.43),
        (151.10, 151.10, 150.67, 151.01, 2675.0, 150.56),
        (151.30, 151.30, 150.77, 150.80, 3334.0, 150.66),
        (150.95, 150.95, 150.78, 150.93, 430.0, 150.66),
        (151.12, 151.12, 150.80, 151.10, 220.0, 150.67),
        (151.27, 151.27, 151.01, 151.25, 900.0, 150.70),
        (151.35, 151.35, 151.26, 151.33, 4088.0, 150.83),
        (151.52, 151.52, 151.32, 151.51, 650.0, 150.85),
        (151.69, 151.69, 151.49, 151.67, 1582.0, 150.91),
        (152.03, 152.03, 151.66, 151.80, 1892.0, 150.98),
        (151.90, 151.90, 151.75, 151.88, 2200.0, 151.05),
        (152.15, 152.15, 151.86, 152.10, 3043.0, 151.16),
        (152.43, 152.43, 152.03, 152.33, 675.0, 151.18),
        (152.57, 152.57, 152.25, 152.50, 1243.0, 151.24),
    ];
    let mut indicator = VolumeWeightedAveragePrice::new();
    for (open, high, low, close, volume, vwap) in data {
        let di = generate_bar((open, high, low, close, volume));
        approx(indicator.next(&di), vwap, 0.01);
    }
}

#[test]
fn test_next_std_dev() {
    let mut indicator = VolumeWeightedAveragePrice::new();

    let data = vec![
        (76.529, 76.529, 76.529, 76.529, 1.0, 76.529, (76.529, 76.529), (76.529, 76.529)),
        (
            76.073,
            76.073,
            76.043,
            76.073,
            121.0,
            76.06681967213113,
            (76.15085245902783, 75.98278688523443),
            (76.19286885247618, 75.94077049178608),
        ),
        (
            76.323,
            76.323,
            76.053,
            76.193,
            181.0,
            76.14020352035202,
            (76.27197010203601, 76.00843693866803),
            (76.33785339287802, 75.94255364782602),
        ),
        (
            76.208,
            76.208,
            75.918,
            75.988,
            146.0,
            76.1069703043801,
            (76.25148729829992, 75.96245331046028),
            (76.32374579525984, 75.89019481350036),
        ),
        (
            76.088,
            76.088,
            75.883,
            76.058,
            149.0,
            76.08272575250835,
            (76.23361138086482, 75.93184012415189),
            (76.30905419504305, 75.85639730997366),
        ),
        (
            76.183,
            76.183,
            76.063,
            76.153,
            93.0,
            76.08949204052098,
            (76.23399096258677, 75.94499311845519),
            (76.30624042361966, 75.8727436574223),
        ),
        (
            76.178,
            76.178,
            76.098,
            76.158,
            75.0,
            76.09489425587466,
            (76.23600089361555, 75.95378761813377),
            (76.30655421248599, 75.88323429926334),
        ),
        (
            76.153,
            76.153,
            75.984,
            76.034,
            141.0,
            76.0890033076075,
            (76.22155470994076, 75.95645190527424),
            (76.28783041110741, 75.89017620410759),
        ),
        (
            76.092,
            76.092,
            75.903,
            75.929,
            205.0,
            76.06792505995203,
            (76.21690062084983, 75.91894949905424),
            (76.29138840129872, 75.84446171860534),
        ),
        (
            76.017,
            76.017,
            75.812,
            75.958,
            204.0,
            76.04638956433638,
            (76.21628813403485, 75.8764909946379),
            (76.30123741888409, 75.79154170978867),
        ),
        (
            76.012,
            76.012,
            75.922,
            75.937,
            107.0,
            76.03966807214805,
            (76.20971995401032, 75.86961619028577),
            (76.29474589494147, 75.78459024935462),
        ),
        (
            76.049,
            76.049,
            75.943,
            75.977,
            122.0,
            76.03571974110032,
            (76.20113288848688, 75.87030659371376),
            (76.28383946218017, 75.78760002002048),
        ),
        (
            76.069,
            76.069,
            75.938,
            76.048,
            82.0,
            76.03484347469781,
            (76.19621376886145, 75.87347318053416),
            (76.27689891594328, 75.79278803345234),
        ),
        (
            76.117,
            76.117,
            75.997,
            76.068,
            148.0,
            76.03699661971831,
            (76.19215131179875, 75.88184192763786),
            (76.26972865783898, 75.80426458159764),
        ),
        (
            76.167,
            76.167,
            76.027,
            76.093,
            200.0,
            76.04293789029535,
            (76.19422672735257, 75.89164905323813),
            (76.2698711458812, 75.8160046347095),
        ),
        (
            76.109,
            76.109,
            76.048,
            76.104,
            123.0,
            76.0455211312361,
            (76.19376091244948, 75.89728135002272),
            (76.26788080305617, 75.82316145941603),
        ),
    ];

    for (open, high, low, close, volume, vwap, two, three) in data {
        let (vwap_std_2_up, vwap_std_2_down) = two;
        let (vwap_std_3_up, vwap_std_3_down) = three;
        let di = generate_bar((open, high, low, close, volume));

        approx(indicator.next(&di), vwap, 0.01);
        approx(
            indicator.std_dev(lit(2.0), VolumeWeightedAveragePriceBands::Up),
            vwap_std_2_up,
            0.01,
        );
        approx(
            indicator.std_dev(lit(2.0), VolumeWeightedAveragePriceBands::Down),
            vwap_std_2_down,
            0.01,
        );
        approx(
            indicator.std_dev(lit(3.0), VolumeWeightedAveragePriceBands::Up),
            vwap_std_3_up,
            0.01,
        );
        approx(
            indicator.std_dev(lit(3.0), VolumeWeightedAveragePriceBands::Down),
            vwap_std_3_down,
            0.01,
        );
    }
}

#[test]
fn volume_weighted_average_price_test_reset() {
    let mut vwap = VolumeWeightedAveragePrice::new();

    approx(vwap.next(&generate_bar((150.39, 150.39, 150.22, 150.31, 380.0))), 150.31, 0.01);
    vwap.next(&generate_bar((150.47, 150.47, 150.38, 150.41, 5270.0)));
    assert_ne!(vwap.next(&generate_bar((150.49, 150.49, 150.33, 150.46, 990.0))), lit(150.31));

    vwap.reset();
    approx(vwap.next(&generate_bar((150.39, 150.39, 150.22, 150.31, 380.0))), 150.31, 0.01);
}

#[test]
fn volume_weighted_average_price_test_default() {
    VolumeWeightedAveragePrice::default();
}

#[test]
fn volume_weighted_average_price_test_display() {
    let vwap = VolumeWeightedAveragePrice::new();
    assert_eq!(vwap.to_string(), "VWAP()");
}
