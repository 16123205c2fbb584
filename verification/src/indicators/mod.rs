//! The indicators: each one a validated constructor plus a streaming step,
//! specified by a public abstract view, an initial-state function and a
//! step function, with the laws that relate them stated as proof functions.

mod average_directional_index;
mod average_true_range;
mod bollinger_bands;
mod chandelier_exit;
mod commodity_channel_index;
mod directional_indicator;
mod directional_movement;
mod directional_movement_index;
mod efficiency_ratio;
mod exponential_moving_average;
mod fast_stochastic;
mod hull_moving_average;
mod keltner_channel;
mod maximum;
mod mean_absolute_deviation;
mod minimum;
mod money_flow_index;
mod moving_average_convergence_divergence;
mod on_balance_volume;
mod percentage_price_oscillator;
mod quantitative_qualitative_estimation;
mod rate_of_change;
mod relative_strength_index;
mod rotation_factor;
mod simple_moving_average;
mod slow_stochastic;
mod smoothed_directional_movement;
mod standard_deviation;
mod true_range;
mod volume_weighted_average_price;
mod weighted_moving_average;

pub use self::average_directional_index::{
    adx_init, adx_out, adx_snapshot_valid, adx_snapshot_view, adx_step, AdxSnapshot, AdxView,
    AverageDirectionalIndex,
};
pub use self::average_true_range::{
    atr_init, atr_out, atr_out_bar, atr_snapshot_valid, atr_snapshot_view, atr_step,
    atr_step_bar, AtrSnapshot, AtrView, AverageTrueRange,
};
pub use self::bollinger_bands::{
    bb_init, bb_out, bb_run, bb_snapshot_valid, bb_snapshot_view, bb_step, bb_wf, BbSnapshot,
    BbView, BollingerBands, BollingerBandsOutput,
};
pub use self::chandelier_exit::{
    ce_init, ce_out, ce_snapshot_valid, ce_snapshot_view, ce_step, ce_wf, CeSnapshot, CeView,
    ChandelierExit, ChandelierExitOutput,
};
pub use self::commodity_channel_index::{
    cci_init, cci_out, cci_snapshot_valid, cci_snapshot_view, cci_step, cci_wf, CciSnapshot,
    CciView, CommodityChannelIndex,
};
pub use self::directional_indicator::{
    di_init, di_snapshot_valid, di_snapshot_view, ndi_out, ndi_step, pdi_out, pdi_step,
    DiSnapshot, DiView, NegativeDirectionalIndicator,
    PositiveDirectionalIndicator,
};
pub use self::directional_movement::{
    dm_init, dm_snapshot_view, dm_step, lemma_dm_reset_determinism, ndm_out, pdm_out, DmSnapshot,
    DmView,
    NegativeDirectionalMovement, PositiveDirectionalMovement,
};
pub use self::directional_movement_index::{
    dx_init, dx_out, dx_ready, dx_snapshot_valid, dx_snapshot_view, dx_step,
    DirectionalMovementIndex, DxSnapshot, DxView,
};
pub use self::efficiency_ratio::{
    er_init, er_out, er_run, er_scan, er_snapshot_valid, er_snapshot_view, er_step,
    lemma_er_fill_transition, EfficiencyRatio, ErSnapshot, ErView,
};
pub use self::exponential_moving_average::{
    ema_init, ema_k, ema_out, ema_run, ema_snapshot_valid, ema_snapshot_view, ema_step, ema_wf,
    lemma_ema_reset_determinism, lemma_ema_snapshot_resume, EmaSnapshot, EmaView,
    ExponentialMovingAverage,
};
pub use self::fast_stochastic::{
    fast_stochastic_init, fast_stochastic_out, fast_stochastic_out_bar,
    fast_stochastic_snapshot_of, fast_stochastic_snapshot_valid, fast_stochastic_snapshot_view,
    fast_stochastic_step, fast_stochastic_step_bar, stochastic_value, FastStochastic,
    FastStochasticSnapshot, FastStochasticView,
};
pub use self::hull_moving_average::{
    hma_init, hma_out, hma_snapshot_valid, hma_snapshot_view, hma_source, hma_step, period_root,
    HmaSnapshot, HmaView, HullMovingAverage,
};
pub use self::keltner_channel::{
    kc_init, kc_out, kc_out_bar, kc_snapshot_valid, kc_snapshot_view, kc_step, kc_step_bar,
    kc_wf, typical_price, KcSnapshot, KcView, KeltnerChannel, KeltnerChannelOutput,
};
pub use self::maximum::{
    lemma_max_reports_window_max, lemma_max_run_ok, lemma_max_run_snoc, max_cache_ok, max_init,
    max_out, max_run, max_run_ok, max_slot_ok, max_snapshot_of, max_snapshot_valid,
    max_snapshot_view, max_step, rescan_index, scan_max, MaximumSnapshot, MaxView, Maximum,
};
pub use self::mean_absolute_deviation::{
    lemma_mad_fill_transition, mad_fold, mad_init, mad_out, mad_run, mad_snapshot_valid,
    mad_snapshot_view, mad_step, MadSnapshot, MadView, MeanAbsoluteDeviation,
};
pub use self::minimum::{
    lemma_min_reports_window_min, lemma_min_run_ok, lemma_min_run_snoc, min_cache_ok, min_init,
    min_out, min_run, min_run_ok, min_slot_ok, min_snapshot_of, min_snapshot_valid,
    min_snapshot_view, min_step, rescan_min_index, scan_min, MinimumSnapshot, MinView, Minimum,
};
pub use self::money_flow_index::{
    mfi_init, mfi_out, mfi_snapshot_valid, mfi_snapshot_view, mfi_step, MfiSnapshot, MfiView,
    MoneyFlowIndex,
};
pub use self::moving_average_convergence_divergence::{
    macd_init, macd_out, macd_run, macd_snapshot_valid, macd_snapshot_view, macd_step,
    MacdSnapshot, MacdView,
    MovingAverageConvergenceDivergence, MovingAverageConvergenceDivergenceOutput,
};
pub use self::on_balance_volume::{
    obv_init, obv_out, obv_snapshot_view, obv_step, ObvSnapshot, ObvView, OnBalanceVolume,
};
pub use self::percentage_price_oscillator::{
    ppo_init, ppo_out, ppo_run, ppo_snapshot_valid, ppo_snapshot_view, ppo_step,
    PercentagePriceOscillator, PpoSnapshot,
    PercentagePriceOscillatorOutput, PpoView,
};
pub use self::quantitative_qualitative_estimation::{
    qqe_combined, qqe_init, qqe_snapshot_valid, qqe_snapshot_view, qqe_step, qqe_transition,
    QqeSnapshot, QqeView, QuantitativeQualitativeEstimation,
    QuantitativeQualitativeEstimationOutput,
};
pub use self::rate_of_change::{
    roc_init, roc_out, roc_prev, roc_run, roc_snapshot_valid, roc_snapshot_view, roc_step,
    RateOfChange, RocSnapshot, RocView,
};
pub use self::relative_strength_index::{
    rsi_init, rsi_moves, rsi_out, rsi_run, rsi_snapshot_valid, rsi_snapshot_view, rsi_step,
    rsi_wf, RelativeStrengthIndex, RsiSnapshot, RsiView,
};
pub use self::rotation_factor::{
    rotation_factor_init, rotation_factor_out, rotation_factor_snapshot_view,
    rotation_factor_step, rotation_factor_value, RotationFactor, RotationFactorSnapshot,
    RotationFactorView,
};
pub use self::simple_moving_average::{
    lemma_sma_fill_transition, sma_init, sma_out, sma_run, sma_snapshot_valid,
    sma_snapshot_view, sma_step, SimpleMovingAverage, SmaSnapshot, SmaView,
};
pub use self::slow_stochastic::{
    slow_stochastic_init, slow_stochastic_out, slow_stochastic_out_bar,
    slow_stochastic_snapshot_valid, slow_stochastic_snapshot_view, slow_stochastic_step,
    slow_stochastic_step_bar, SlowStochastic, SlowStochasticSnapshot, SlowStochasticView,
};
pub use self::smoothed_directional_movement::{
    ring_window, sdm_init, sdm_neg_out, sdm_neg_step, sdm_pos_out, sdm_pos_step,
    sdm_snapshot_valid, sdm_snapshot_view, SdmSnapshot, SdmView,
    SmoothedNegativeDirectionalMovement, SmoothedPositiveDirectionalMovement,
};
pub use self::standard_deviation::{
    count_v, lemma_sd_fill_transition, sd_init, sd_out, sd_run, sd_snapshot_valid,
    sd_snapshot_view, sd_step, SdSnapshot, SdView, StandardDeviation,
};
pub use self::true_range::{
    tr_init, tr_out, tr_out_bar, tr_snapshot_view, tr_step, tr_step_bar, TrSnapshot, TrView,
    TrueRange,
};
pub use self::volume_weighted_average_price::{
    vwap_band, vwap_init, vwap_out, vwap_snapshot_view, vwap_step, vwap_typical_price,
    VolumeWeightedAveragePrice, VwapSnapshot,
    VolumeWeightedAveragePriceBands, VwapView,
};
pub use self::weighted_moving_average::{
    lemma_wma_fill_transition, wma_init, wma_out, wma_run, wma_snapshot_valid,
    wma_snapshot_view, wma_step, WeightedMovingAverage, WmaSnapshot, WmaView,
};
