//! Indicator configuration of a timeframe: periods and thresholds, their
//! validation, and the per-duration tuning profile.
//!
//! The profile assigns every duration of the supported pool its own
//! periods; durations outside the pool keep the static defaults. Canonical
//! thresholds stay constant across durations, periods carry the
//! responsiveness.
use vstd::prelude::*;
use vstd::string::*;
use crate::durations::is_supported;

verus! {

/// The indicator settings of one timeframe.
///
/// Integer periods and thresholds, the heatmap leverage tiers and the
/// pivot-points method are held as they are. Of each floating-point setting
/// that validation guards, the struct holds the verdict of that guard
/// (`*_valid`): the multipliers must be positive and finite, the
/// volume-profile value area must lie in `(0, 1]`. The floating-point values
/// themselves stay with the caller, which evaluates the guards on them.
#[derive(Debug, Clone, PartialEq, Eq)]
pub struct IndicatorsConfig {
    pub ema_fast: usize,
    pub ema_medium: usize,
    pub ema_slow: usize,
    pub ema_long: usize,
    pub rsi_period: usize,
    pub macd_fast: usize,
    pub macd_slow: usize,
    pub macd_signal: usize,
    pub adx_period: usize,
    pub atr_period: usize,
    pub squeeze_period: usize,
    pub stoch_k_period: usize,
    pub stoch_d_period: usize,
    pub stoch_s_period: usize,
    pub chandemo_period: usize,
    pub supertrend_period: usize,
    pub supertrend_multiplier_valid: bool,
    pub keltner_ema_period: usize,
    pub keltner_atr_period: usize,
    pub keltner_multiplier_valid: bool,
    pub donchian_period: usize,
    pub obv_smoothing: usize,
    pub cmf_period: usize,
    pub mfi_period: usize,
    pub hv_period: usize,
    pub aroon_period: usize,
    pub chop_period: usize,
    pub linreg_period: usize,
    pub zscore_period: usize,
    pub bbwp_lookback: usize,
    pub bbwp_period: usize,
    pub adx_trend_threshold: u32,
    pub adx_exhaustion_threshold: u32,
    pub adx_slope_lookback: usize,
    pub squeeze_min_duration: u32,
    pub squeeze_bb_period: usize,
    pub squeeze_kc_period: usize,
    pub volume_average_period: usize,
    /// Leverage tiers highlighted on the liquidation heatmap.
    pub heatmap_leverage_tiers: Vec<u32>,
    pub pivot_points_method: String,
    pub ichimoku_tenkan: usize,
    pub ichimoku_kijun: usize,
    pub ichimoku_senkou_b: usize,
    pub ichimoku_displacement: usize,
    pub cci_period: usize,
    pub williams_r_period: usize,
    pub hull_ma_period: usize,
    pub force_index_smoothing: usize,
    pub stddev_channel_period: usize,
    pub smc_lookback: usize,
    pub volume_profile_bins: usize,
    pub volume_profile_window: usize,
    pub volume_profile_value_area_valid: bool,
}

fn default_ema_fast() -> (n: usize)
    ensures
        n == 10,
{
    10
}

fn default_ema_medium() -> (n: usize)
    ensures
        n == 50,
{
    50
}

fn default_ema_slow() -> (n: usize)
    ensures
        n == 100,
{
    100
}

fn default_ema_long() -> (n: usize)
    ensures
        n == 200,
{
    200
}

fn default_rsi_period() -> (n: usize)
    ensures
        n == 14,
{
    14
}

fn default_macd_fast() -> (n: usize)
    ensures
        n == 12,
{
    12
}

fn default_macd_slow() -> (n: usize)
    ensures
        n == 26,
{
    26
}

fn default_macd_signal() -> (n: usize)
    ensures
        n == 9,
{
    9
}

fn default_adx_period() -> (n: usize)
    ensures
        n == 14,
{
    14
}

fn default_atr_period() -> (n: usize)
    ensures
        n == 14,
{
    14
}

fn default_squeeze_period() -> (n: usize)
    ensures
        n == 20,
{
    20
}

fn default_stoch_k() -> (n: usize)
    ensures
        n == 18,
{
    18
}

fn default_stoch_d() -> (n: usize)
    ensures
        n == 5,
{
    5
}

fn default_stoch_s() -> (n: usize)
    ensures
        n == 9,
{
    9
}

fn default_chandemo() -> (n: usize)
    ensures
        n == 12,
{
    12
}

fn default_supertrend_period() -> (n: usize)
    ensures
        n == 10,
{
    10
}

fn default_keltner_ema() -> (n: usize)
    ensures
        n == 20,
{
    20
}

fn default_keltner_atr() -> (n: usize)
    ensures
        n == 10,
{
    10
}

fn default_donchian_period() -> (n: usize)
    ensures
        n == 20,
{
    20
}

fn default_obv_smoothing() -> (n: usize)
    ensures
        n == 20,
{
    20
}

fn default_cmf_period() -> (n: usize)
    ensures
        n == 20,
{
    20
}

fn default_mfi_period() -> (n: usize)
    ensures
        n == 14,
{
    14
}

fn default_hv_period() -> (n: usize)
    ensures
        n == 20,
{
    20
}

fn default_aroon_period() -> (n: usize)
    ensures
        n == 25,
{
    25
}

fn default_chop_period() -> (n: usize)
    ensures
        n == 14,
{
    14
}

fn default_linreg_period() -> (n: usize)
    ensures
        n == 20,
{
    20
}

fn default_zscore_period() -> (n: usize)
    ensures
        n == 20,
{
    20
}

fn default_bbwp_lookback() -> (n: usize)
    ensures
        n == 252,
{
    252
}

fn default_bbwp_period() -> (n: usize)
    ensures
        n == 20,
{
    20
}

fn default_adx_trend_threshold() -> (n: u32)
    ensures
        n == 20,
{
    20
}

fn default_adx_exhaustion_threshold() -> (n: u32)
    ensures
        n == 40,
{
    40
}

fn default_adx_slope_lookback() -> (n: usize)
    ensures
        n == 3,
{
    3
}

fn default_squeeze_min_duration() -> (n: u32)
    ensures
        n == 5,
{
    5
}

fn default_squeeze_bb_period() -> (n: usize)
    ensures
        n == 20,
{
    20
}

fn default_squeeze_kc_period() -> (n: usize)
    ensures
        n == 20,
{
    20
}

fn default_volume_average_period() -> (n: usize)
    ensures
        n == 20,
{
    20
}

fn default_heatmap_leverage_tiers() -> (v: Vec<u32>)
    ensures
        v@ == seq![10u32],
{
    vec![10]
}

fn default_pivot_points_method() -> (s: String)
    ensures
        s@ == "classic"@,
{
    String::from_str("classic")
}

fn default_ichimoku_tenkan() -> (n: usize)
    ensures
        n == 9,
{
    9
}

fn default_ichimoku_kijun() -> (n: usize)
    ensures
        n == 26,
{
    26
}

fn default_ichimoku_senkou_b() -> (n: usize)
    ensures
        n == 52,
{
    52
}

fn default_ichimoku_displacement() -> (n: usize)
    ensures
        n == 26,
{
    26
}

fn default_cci_period() -> (n: usize)
    ensures
        n == 20,
{
    20
}

fn default_williams_r_period() -> (n: usize)
    ensures
        n == 14,
{
    14
}

fn default_hull_ma_period() -> (n: usize)
    ensures
        n == 21,
{
    21
}

fn default_force_index_smoothing() -> (n: usize)
    ensures
        n == 13,
{
    13
}

fn default_stddev_channel_period() -> (n: usize)
    ensures
        n == 20,
{
    20
}

fn default_smc_lookback() -> (n: usize)
    ensures
        n == 20,
{
    20
}

fn default_volume_profile_bins() -> (n: usize)
    ensures
        n == 100,
{
    100
}

fn default_volume_profile_window() -> (n: usize)
    ensures
        n == 500,
{
    500
}

/// The indicator periods that validation requires to be at least one, in
/// the order in which it checks them.
#[derive(Debug, Clone, Copy, PartialEq, Eq)]
pub enum IndicatorPeriod {
    EmaFast,
    EmaMedium,
    EmaSlow,
    EmaLong,
    RsiPeriod,
    MacdFast,
    MacdSlow,
    MacdSignal,
    AdxPeriod,
    AtrPeriod,
    SqueezePeriod,
    StochKPeriod,
    StochDPeriod,
    StochSPeriod,
    ChandemoPeriod,
    SupertrendPeriod,
    KeltnerEmaPeriod,
    KeltnerAtrPeriod,
    DonchianPeriod,
    ObvSmoothing,
    CmfPeriod,
    MfiPeriod,
    HvPeriod,
    AroonPeriod,
    ChopPeriod,
    LinregPeriod,
    ZscorePeriod,
    BbwpLookback,
    BbwpPeriod,
    SqueezeBbPeriod,
    SqueezeKcPeriod,
    VolumeAveragePeriod,
    IchimokuTenkan,
    IchimokuKijun,
    IchimokuSenkouB,
    IchimokuDisplacement,
    CciPeriod,
    WilliamsRPeriod,
    HullMaPeriod,
    ForceIndexSmoothing,
    StddevChannelPeriod,
    SmcLookback,
    VolumeProfileBins,
    VolumeProfileWindow,
}

/// Number of checked periods.
pub const PERIOD_COUNT: usize = 44;

/// The checked period at position `k` of the validation order.
pub open spec fn period_at_spec(k: int) -> IndicatorPeriod {
    if k == 0 { IndicatorPeriod::EmaFast }
    else if k == 1 { IndicatorPeriod::EmaMedium }
    else if k == 2 { IndicatorPeriod::EmaSlow }
    else if k == 3 { IndicatorPeriod::EmaLong }
    else if k == 4 { IndicatorPeriod::RsiPeriod }
    else if k == 5 { IndicatorPeriod::MacdFast }
    else if k == 6 { IndicatorPeriod::MacdSlow }
    else if k == 7 { IndicatorPeriod::MacdSignal }
    else if k == 8 { IndicatorPeriod::AdxPeriod }
    else if k == 9 { IndicatorPeriod::AtrPeriod }
    else if k == 10 { IndicatorPeriod::SqueezePeriod }
    else if k == 11 { IndicatorPeriod::StochKPeriod }
    else if k == 12 { IndicatorPeriod::StochDPeriod }
    else if k == 13 { IndicatorPeriod::StochSPeriod }
    else if k == 14 { IndicatorPeriod::ChandemoPeriod }
    else if k == 15 { IndicatorPeriod::SupertrendPeriod }
    else if k == 16 { IndicatorPeriod::KeltnerEmaPeriod }
    else if k == 17 { IndicatorPeriod::KeltnerAtrPeriod }
    else if k == 18 { IndicatorPeriod::DonchianPeriod }
    else if k == 19 { IndicatorPeriod::ObvSmoothing }
    else if k == 20 { IndicatorPeriod::CmfPeriod }
    else if k == 21 { IndicatorPeriod::MfiPeriod }
    else if k == 22 { IndicatorPeriod::HvPeriod }
    else if k == 23 { IndicatorPeriod::AroonPeriod }
    else if k == 24 { IndicatorPeriod::ChopPeriod }
    else if k == 25 { IndicatorPeriod::LinregPeriod }
    else if k == 26 { IndicatorPeriod::ZscorePeriod }
    else if k == 27 { IndicatorPeriod::BbwpLookback }
    else if k == 28 { IndicatorPeriod::BbwpPeriod }
    else if k == 29 { IndicatorPeriod::SqueezeBbPeriod }
    else if k == 30 { IndicatorPeriod::SqueezeKcPeriod }
    else if k == 31 { IndicatorPeriod::VolumeAveragePeriod }
    else if k == 32 { IndicatorPeriod::IchimokuTenkan }
    else if k == 33 { IndicatorPeriod::IchimokuKijun }
    else if k == 34 { IndicatorPeriod::IchimokuSenkouB }
    else if k == 35 { IndicatorPeriod::IchimokuDisplacement }
    else if k == 36 { IndicatorPeriod::CciPeriod }
    else if k == 37 { IndicatorPeriod::WilliamsRPeriod }
    else if k == 38 { IndicatorPeriod::HullMaPeriod }
    else if k == 39 { IndicatorPeriod::ForceIndexSmoothing }
    else if k == 40 { IndicatorPeriod::StddevChannelPeriod }
    else if k == 41 { IndicatorPeriod::SmcLookback }
    else if k == 42 { IndicatorPeriod::VolumeProfileBins }
    else { IndicatorPeriod::VolumeProfileWindow }
}

/// The checked period at position `k` of the validation order.
pub fn period_at(k: usize) -> (p: IndicatorPeriod)
    requires
        k < PERIOD_COUNT,
    ensures
        p == period_at_spec(k as int),
{
    match k {
        0 => IndicatorPeriod::EmaFast,
        1 => IndicatorPeriod::EmaMedium,
        2 => IndicatorPeriod::EmaSlow,
        3 => IndicatorPeriod::EmaLong,
        4 => IndicatorPeriod::RsiPeriod,
        5 => IndicatorPeriod::MacdFast,
        6 => IndicatorPeriod::MacdSlow,
        7 => IndicatorPeriod::MacdSignal,
        8 => IndicatorPeriod::AdxPeriod,
        9 => IndicatorPeriod::AtrPeriod,
        10 => IndicatorPeriod::SqueezePeriod,
        11 => IndicatorPeriod::StochKPeriod,
        12 => IndicatorPeriod::StochDPeriod,
        13 => IndicatorPeriod::StochSPeriod,
        14 => IndicatorPeriod::ChandemoPeriod,
        15 => IndicatorPeriod::SupertrendPeriod,
        16 => IndicatorPeriod::KeltnerEmaPeriod,
        17 => IndicatorPeriod::KeltnerAtrPeriod,
        18 => IndicatorPeriod::DonchianPeriod,
        19 => IndicatorPeriod::ObvSmoothing,
        20 => IndicatorPeriod::CmfPeriod,
        21 => IndicatorPeriod::MfiPeriod,
        22 => IndicatorPeriod::HvPeriod,
        23 => IndicatorPeriod::AroonPeriod,
        24 => IndicatorPeriod::ChopPeriod,
        25 => IndicatorPeriod::LinregPeriod,
        26 => IndicatorPeriod::ZscorePeriod,
        27 => IndicatorPeriod::BbwpLookback,
        28 => IndicatorPeriod::BbwpPeriod,
        29 => IndicatorPeriod::SqueezeBbPeriod,
        30 => IndicatorPeriod::SqueezeKcPeriod,
        31 => IndicatorPeriod::VolumeAveragePeriod,
        32 => IndicatorPeriod::IchimokuTenkan,
        33 => IndicatorPeriod::IchimokuKijun,
        34 => IndicatorPeriod::IchimokuSenkouB,
        35 => IndicatorPeriod::IchimokuDisplacement,
        36 => IndicatorPeriod::CciPeriod,
        37 => IndicatorPeriod::WilliamsRPeriod,
        38 => IndicatorPeriod::HullMaPeriod,
        39 => IndicatorPeriod::ForceIndexSmoothing,
        40 => IndicatorPeriod::StddevChannelPeriod,
        41 => IndicatorPeriod::SmcLookback,
        42 => IndicatorPeriod::VolumeProfileBins,
        _ => IndicatorPeriod::VolumeProfileWindow,
    }
}

impl IndicatorPeriod {
    /// The configuration key of this period.
    pub open spec fn key_spec(self) -> &'static str {
        match self {
            IndicatorPeriod::EmaFast => "ema_fast",
            IndicatorPeriod::EmaMedium => "ema_medium",
            IndicatorPeriod::EmaSlow => "ema_slow",
            IndicatorPeriod::EmaLong => "ema_long",
            IndicatorPeriod::RsiPeriod => "rsi_period",
            IndicatorPeriod::MacdFast => "macd_fast",
            IndicatorPeriod::MacdSlow => "macd_slow",
            IndicatorPeriod::MacdSignal => "macd_signal",
            IndicatorPeriod::AdxPeriod => "adx_period",
            IndicatorPeriod::AtrPeriod => "atr_period",
            IndicatorPeriod::SqueezePeriod => "squeeze_period",
            IndicatorPeriod::StochKPeriod => "stoch_k_period",
            IndicatorPeriod::StochDPeriod => "stoch_d_period",
            IndicatorPeriod::StochSPeriod => "stoch_s_period",
            IndicatorPeriod::ChandemoPeriod => "chandemo_period",
            IndicatorPeriod::SupertrendPeriod => "supertrend_period",
            IndicatorPeriod::KeltnerEmaPeriod => "keltner_ema_period",
            IndicatorPeriod::KeltnerAtrPeriod => "keltner_atr_period",
            IndicatorPeriod::DonchianPeriod => "donchian_period",
            IndicatorPeriod::ObvSmoothing => "obv_smoothing",
            IndicatorPeriod::CmfPeriod => "cmf_period",
            IndicatorPeriod::MfiPeriod => "mfi_period",
            IndicatorPeriod::HvPeriod => "hv_period",
            IndicatorPeriod::AroonPeriod => "aroon_period",
            IndicatorPeriod::ChopPeriod => "chop_period",
            IndicatorPeriod::LinregPeriod => "linreg_period",
            IndicatorPeriod::ZscorePeriod => "zscore_period",
            IndicatorPeriod::BbwpLookback => "bbwp_lookback",
            IndicatorPeriod::BbwpPeriod => "bbwp_period",
            IndicatorPeriod::SqueezeBbPeriod => "squeeze_bb_period",
            IndicatorPeriod::SqueezeKcPeriod => "squeeze_kc_period",
            IndicatorPeriod::VolumeAveragePeriod => "volume_average_period",
            IndicatorPeriod::IchimokuTenkan => "ichimoku_tenkan",
            IndicatorPeriod::IchimokuKijun => "ichimoku_kijun",
            IndicatorPeriod::IchimokuSenkouB => "ichimoku_senkou_b",
            IndicatorPeriod::IchimokuDisplacement => "ichimoku_displacement",
            IndicatorPeriod::CciPeriod => "cci_period",
            IndicatorPeriod::WilliamsRPeriod => "williams_r_period",
            IndicatorPeriod::HullMaPeriod => "hull_ma_period",
            IndicatorPeriod::ForceIndexSmoothing => "force_index_smoothing",
            IndicatorPeriod::StddevChannelPeriod => "stddev_channel_period",
            IndicatorPeriod::SmcLookback => "smc_lookback",
            IndicatorPeriod::VolumeProfileBins => "volume_profile_bins",
            IndicatorPeriod::VolumeProfileWindow => "volume_profile_window",
        }
    }

    /// The configuration key of this period (as written in `config.toml`).
    pub fn key(&self) -> (k: &'static str)
        ensures
            k == self.key_spec(),
    {
        match self {
            IndicatorPeriod::EmaFast => "ema_fast",
            IndicatorPeriod::EmaMedium => "ema_medium",
            IndicatorPeriod::EmaSlow => "ema_slow",
            IndicatorPeriod::EmaLong => "ema_long",
            IndicatorPeriod::RsiPeriod => "rsi_period",
            IndicatorPeriod::MacdFast => "macd_fast",
            IndicatorPeriod::MacdSlow => "macd_slow",
            IndicatorPeriod::MacdSignal => "macd_signal",
            IndicatorPeriod::AdxPeriod => "adx_period",
            IndicatorPeriod::AtrPeriod => "atr_period",
            IndicatorPeriod::SqueezePeriod => "squeeze_period",
            IndicatorPeriod::StochKPeriod => "stoch_k_period",
            IndicatorPeriod::StochDPeriod => "stoch_d_period",
            IndicatorPeriod::StochSPeriod => "stoch_s_period",
            IndicatorPeriod::ChandemoPeriod => "chandemo_period",
            IndicatorPeriod::SupertrendPeriod => "supertrend_period",
            IndicatorPeriod::KeltnerEmaPeriod => "keltner_ema_period",
            IndicatorPeriod::KeltnerAtrPeriod => "keltner_atr_period",
            IndicatorPeriod::DonchianPeriod => "donchian_period",
            IndicatorPeriod::ObvSmoothing => "obv_smoothing",
            IndicatorPeriod::CmfPeriod => "cmf_period",
            IndicatorPeriod::MfiPeriod => "mfi_period",
            IndicatorPeriod::HvPeriod => "hv_period",
            IndicatorPeriod::AroonPeriod => "aroon_period",
            IndicatorPeriod::ChopPeriod => "chop_period",
            IndicatorPeriod::LinregPeriod => "linreg_period",
            IndicatorPeriod::ZscorePeriod => "zscore_period",
            IndicatorPeriod::BbwpLookback => "bbwp_lookback",
            IndicatorPeriod::BbwpPeriod => "bbwp_period",
            IndicatorPeriod::SqueezeBbPeriod => "squeeze_bb_period",
            IndicatorPeriod::SqueezeKcPeriod => "squeeze_kc_period",
            IndicatorPeriod::VolumeAveragePeriod => "volume_average_period",
            IndicatorPeriod::IchimokuTenkan => "ichimoku_tenkan",
            IndicatorPeriod::IchimokuKijun => "ichimoku_kijun",
            IndicatorPeriod::IchimokuSenkouB => "ichimoku_senkou_b",
            IndicatorPeriod::IchimokuDisplacement => "ichimoku_displacement",
            IndicatorPeriod::CciPeriod => "cci_period",
            IndicatorPeriod::WilliamsRPeriod => "williams_r_period",
            IndicatorPeriod::HullMaPeriod => "hull_ma_period",
            IndicatorPeriod::ForceIndexSmoothing => "force_index_smoothing",
            IndicatorPeriod::StddevChannelPeriod => "stddev_channel_period",
            IndicatorPeriod::SmcLookback => "smc_lookback",
            IndicatorPeriod::VolumeProfileBins => "volume_profile_bins",
            IndicatorPeriod::VolumeProfileWindow => "volume_profile_window",
        }
    }
}

/// The static default of each checked period.
pub open spec fn default_period(p: IndicatorPeriod) -> usize {
    match p {
        IndicatorPeriod::EmaFast => 10,
        IndicatorPeriod::EmaMedium => 50,
        IndicatorPeriod::EmaSlow => 100,
        IndicatorPeriod::EmaLong => 200,
        IndicatorPeriod::RsiPeriod => 14,
        IndicatorPeriod::MacdFast => 12,
        IndicatorPeriod::MacdSlow => 26,
        IndicatorPeriod::MacdSignal => 9,
        IndicatorPeriod::AdxPeriod => 14,
        IndicatorPeriod::AtrPeriod => 14,
        IndicatorPeriod::SqueezePeriod => 20,
        IndicatorPeriod::StochKPeriod => 18,
        IndicatorPeriod::StochDPeriod => 5,
        IndicatorPeriod::StochSPeriod => 9,
        IndicatorPeriod::ChandemoPeriod => 12,
        IndicatorPeriod::SupertrendPeriod => 10,
        IndicatorPeriod::KeltnerEmaPeriod => 20,
        IndicatorPeriod::KeltnerAtrPeriod => 10,
        IndicatorPeriod::DonchianPeriod => 20,
        IndicatorPeriod::ObvSmoothing => 20,
        IndicatorPeriod::CmfPeriod => 20,
        IndicatorPeriod::MfiPeriod => 14,
        IndicatorPeriod::HvPeriod => 20,
        IndicatorPeriod::AroonPeriod => 25,
        IndicatorPeriod::ChopPeriod => 14,
        IndicatorPeriod::LinregPeriod => 20,
        IndicatorPeriod::ZscorePeriod => 20,
        IndicatorPeriod::BbwpLookback => 252,
        IndicatorPeriod::BbwpPeriod => 20,
        IndicatorPeriod::SqueezeBbPeriod => 20,
        IndicatorPeriod::SqueezeKcPeriod => 20,
        IndicatorPeriod::VolumeAveragePeriod => 20,
        IndicatorPeriod::IchimokuTenkan => 9,
        IndicatorPeriod::IchimokuKijun => 26,
        IndicatorPeriod::IchimokuSenkouB => 52,
        IndicatorPeriod::IchimokuDisplacement => 26,
        IndicatorPeriod::CciPeriod => 20,
        IndicatorPeriod::WilliamsRPeriod => 14,
        IndicatorPeriod::HullMaPeriod => 21,
        IndicatorPeriod::ForceIndexSmoothing => 13,
        IndicatorPeriod::StddevChannelPeriod => 20,
        IndicatorPeriod::SmcLookback => 20,
        IndicatorPeriod::VolumeProfileBins => 100,
        IndicatorPeriod::VolumeProfileWindow => 500,
    }
}

impl IndicatorsConfig {
    /// The value of a checked period.
    pub open spec fn period_value(&self, p: IndicatorPeriod) -> usize {
        match p {
            IndicatorPeriod::EmaFast => self.ema_fast,
            IndicatorPeriod::EmaMedium => self.ema_medium,
            IndicatorPeriod::EmaSlow => self.ema_slow,
            IndicatorPeriod::EmaLong => self.ema_long,
            IndicatorPeriod::RsiPeriod => self.rsi_period,
            IndicatorPeriod::MacdFast => self.macd_fast,
            IndicatorPeriod::MacdSlow => self.macd_slow,
            IndicatorPeriod::MacdSignal => self.macd_signal,
            IndicatorPeriod::AdxPeriod => self.adx_period,
            IndicatorPeriod::AtrPeriod => self.atr_period,
            IndicatorPeriod::SqueezePeriod => self.squeeze_period,
            IndicatorPeriod::StochKPeriod => self.stoch_k_period,
            IndicatorPeriod::StochDPeriod => self.stoch_d_period,
            IndicatorPeriod::StochSPeriod => self.stoch_s_period,
            IndicatorPeriod::ChandemoPeriod => self.chandemo_period,
            IndicatorPeriod::SupertrendPeriod => self.supertrend_period,
            IndicatorPeriod::KeltnerEmaPeriod => self.keltner_ema_period,
            IndicatorPeriod::KeltnerAtrPeriod => self.keltner_atr_period,
            IndicatorPeriod::DonchianPeriod => self.donchian_period,
            IndicatorPeriod::ObvSmoothing => self.obv_smoothing,
            IndicatorPeriod::CmfPeriod => self.cmf_period,
            IndicatorPeriod::MfiPeriod => self.mfi_period,
            IndicatorPeriod::HvPeriod => self.hv_period,
            IndicatorPeriod::AroonPeriod => self.aroon_period,
            IndicatorPeriod::ChopPeriod => self.chop_period,
            IndicatorPeriod::LinregPeriod => self.linreg_period,
            IndicatorPeriod::ZscorePeriod => self.zscore_period,
            IndicatorPeriod::BbwpLookback => self.bbwp_lookback,
            IndicatorPeriod::BbwpPeriod => self.bbwp_period,
            IndicatorPeriod::SqueezeBbPeriod => self.squeeze_bb_period,
            IndicatorPeriod::SqueezeKcPeriod => self.squeeze_kc_period,
            IndicatorPeriod::VolumeAveragePeriod => self.volume_average_period,
            IndicatorPeriod::IchimokuTenkan => self.ichimoku_tenkan,
            IndicatorPeriod::IchimokuKijun => self.ichimoku_kijun,
            IndicatorPeriod::IchimokuSenkouB => self.ichimoku_senkou_b,
            IndicatorPeriod::IchimokuDisplacement => self.ichimoku_displacement,
            IndicatorPeriod::CciPeriod => self.cci_period,
            IndicatorPeriod::WilliamsRPeriod => self.williams_r_period,
            IndicatorPeriod::HullMaPeriod => self.hull_ma_period,
            IndicatorPeriod::ForceIndexSmoothing => self.force_index_smoothing,
            IndicatorPeriod::StddevChannelPeriod => self.stddev_channel_period,
            IndicatorPeriod::SmcLookback => self.smc_lookback,
            IndicatorPeriod::VolumeProfileBins => self.volume_profile_bins,
            IndicatorPeriod::VolumeProfileWindow => self.volume_profile_window,
        }
    }

    /// The value of a checked period.
    pub fn period(&self, p: IndicatorPeriod) -> (v: usize)
        ensures
            v == self.period_value(p),
    {
        match p {
            IndicatorPeriod::EmaFast => self.ema_fast,
            IndicatorPeriod::EmaMedium => self.ema_medium,
            IndicatorPeriod::EmaSlow => self.ema_slow,
            IndicatorPeriod::EmaLong => self.ema_long,
            IndicatorPeriod::RsiPeriod => self.rsi_period,
            IndicatorPeriod::MacdFast => self.macd_fast,
            IndicatorPeriod::MacdSlow => self.macd_slow,
            IndicatorPeriod::MacdSignal => self.macd_signal,
            IndicatorPeriod::AdxPeriod => self.adx_period,
            IndicatorPeriod::AtrPeriod => self.atr_period,
            IndicatorPeriod::SqueezePeriod => self.squeeze_period,
            IndicatorPeriod::StochKPeriod => self.stoch_k_period,
            IndicatorPeriod::StochDPeriod => self.stoch_d_period,
            IndicatorPeriod::StochSPeriod => self.stoch_s_period,
            IndicatorPeriod::ChandemoPeriod => self.chandemo_period,
            IndicatorPeriod::SupertrendPeriod => self.supertrend_period,
            IndicatorPeriod::KeltnerEmaPeriod => self.keltner_ema_period,
            IndicatorPeriod::KeltnerAtrPeriod => self.keltner_atr_period,
            IndicatorPeriod::DonchianPeriod => self.donchian_period,
            IndicatorPeriod::ObvSmoothing => self.obv_smoothing,
            IndicatorPeriod::CmfPeriod => self.cmf_period,
            IndicatorPeriod::MfiPeriod => self.mfi_period,
            IndicatorPeriod::HvPeriod => self.hv_period,
            IndicatorPeriod::AroonPeriod => self.aroon_period,
            IndicatorPeriod::ChopPeriod => self.chop_period,
            IndicatorPeriod::LinregPeriod => self.linreg_period,
            IndicatorPeriod::ZscorePeriod => self.zscore_period,
            IndicatorPeriod::BbwpLookback => self.bbwp_lookback,
            IndicatorPeriod::BbwpPeriod => self.bbwp_period,
            IndicatorPeriod::SqueezeBbPeriod => self.squeeze_bb_period,
            IndicatorPeriod::SqueezeKcPeriod => self.squeeze_kc_period,
            IndicatorPeriod::VolumeAveragePeriod => self.volume_average_period,
            IndicatorPeriod::IchimokuTenkan => self.ichimoku_tenkan,
            IndicatorPeriod::IchimokuKijun => self.ichimoku_kijun,
            IndicatorPeriod::IchimokuSenkouB => self.ichimoku_senkou_b,
            IndicatorPeriod::IchimokuDisplacement => self.ichimoku_displacement,
            IndicatorPeriod::CciPeriod => self.cci_period,
            IndicatorPeriod::WilliamsRPeriod => self.williams_r_period,
            IndicatorPeriod::HullMaPeriod => self.hull_ma_period,
            IndicatorPeriod::ForceIndexSmoothing => self.force_index_smoothing,
            IndicatorPeriod::StddevChannelPeriod => self.stddev_channel_period,
            IndicatorPeriod::SmcLookback => self.smc_lookback,
            IndicatorPeriod::VolumeProfileBins => self.volume_profile_bins,
            IndicatorPeriod::VolumeProfileWindow => self.volume_profile_window,
        }
    }
}

/// `c` holds the static defaults.
pub open spec fn has_default_settings(c: IndicatorsConfig) -> bool {
    &&& c.ema_fast == 10
    &&& c.ema_medium == 50
    &&& c.ema_slow == 100
    &&& c.ema_long == 200
    &&& c.rsi_period == 14
    &&& c.macd_fast == 12
    &&& c.macd_slow == 26
    &&& c.macd_signal == 9
    &&& c.adx_period == 14
    &&& c.atr_period == 14
    &&& c.squeeze_period == 20
    &&& c.stoch_k_period == 18
    &&& c.stoch_d_period == 5
    &&& c.stoch_s_period == 9
    &&& c.chandemo_period == 12
    &&& c.supertrend_period == 10
    &&& c.keltner_ema_period == 20
    &&& c.keltner_atr_period == 10
    &&& c.donchian_period == 20
    &&& c.obv_smoothing == 20
    &&& c.cmf_period == 20
    &&& c.mfi_period == 14
    &&& c.hv_period == 20
    &&& c.aroon_period == 25
    &&& c.chop_period == 14
    &&& c.linreg_period == 20
    &&& c.zscore_period == 20
    &&& c.bbwp_lookback == 252
    &&& c.bbwp_period == 20
    &&& c.squeeze_bb_period == 20
    &&& c.squeeze_kc_period == 20
    &&& c.volume_average_period == 20
    &&& c.ichimoku_tenkan == 9
    &&& c.ichimoku_kijun == 26
    &&& c.ichimoku_senkou_b == 52
    &&& c.ichimoku_displacement == 26
    &&& c.cci_period == 20
    &&& c.williams_r_period == 14
    &&& c.hull_ma_period == 21
    &&& c.force_index_smoothing == 13
    &&& c.stddev_channel_period == 20
    &&& c.smc_lookback == 20
    &&& c.volume_profile_bins == 100
    &&& c.volume_profile_window == 500
    &&& c.adx_trend_threshold == 20
    &&& c.adx_exhaustion_threshold == 40
    &&& c.adx_slope_lookback == 3
    &&& c.squeeze_min_duration == 5
    &&& c.heatmap_leverage_tiers@ == seq![10u32]
    &&& c.pivot_points_method@ == "classic"@
    &&& c.supertrend_multiplier_valid
    &&& c.keltner_multiplier_valid
    &&& c.volume_profile_value_area_valid
}

impl IndicatorsConfig {
    /// The settings of the default value.
    pub open spec fn is_default(self) -> bool {
        &&& has_default_settings(self)
    }
}

impl Default for IndicatorsConfig {
    fn default() -> (c: Self)
        ensures
            c.is_default(),
    {
        IndicatorsConfig {
            ema_fast: default_ema_fast(),
            ema_medium: default_ema_medium(),
            ema_slow: default_ema_slow(),
            ema_long: default_ema_long(),
            rsi_period: default_rsi_period(),
            macd_fast: default_macd_fast(),
            macd_slow: default_macd_slow(),
            macd_signal: default_macd_signal(),
            adx_period: default_adx_period(),
            atr_period: default_atr_period(),
            squeeze_period: default_squeeze_period(),
            stoch_k_period: default_stoch_k(),
            stoch_d_period: default_stoch_d(),
            stoch_s_period: default_stoch_s(),
            chandemo_period: default_chandemo(),
            supertrend_period: default_supertrend_period(),
            supertrend_multiplier_valid: true,
            keltner_ema_period: default_keltner_ema(),
            keltner_atr_period: default_keltner_atr(),
            keltner_multiplier_valid: true,
            donchian_period: default_donchian_period(),
            obv_smoothing: default_obv_smoothing(),
            cmf_period: default_cmf_period(),
            mfi_period: default_mfi_period(),
            hv_period: default_hv_period(),
            aroon_period: default_aroon_period(),
            chop_period: default_chop_period(),
            linreg_period: default_linreg_period(),
            zscore_period: default_zscore_period(),
            bbwp_lookback: default_bbwp_lookback(),
            bbwp_period: default_bbwp_period(),
            adx_trend_threshold: default_adx_trend_threshold(),
            adx_exhaustion_threshold: default_adx_exhaustion_threshold(),
            adx_slope_lookback: default_adx_slope_lookback(),
            squeeze_min_duration: default_squeeze_min_duration(),
            squeeze_bb_period: default_squeeze_bb_period(),
            squeeze_kc_period: default_squeeze_kc_period(),
            volume_average_period: default_volume_average_period(),
            heatmap_leverage_tiers: default_heatmap_leverage_tiers(),
            pivot_points_method: default_pivot_points_method(),
            ichimoku_tenkan: default_ichimoku_tenkan(),
            ichimoku_kijun: default_ichimoku_kijun(),
            ichimoku_senkou_b: default_ichimoku_senkou_b(),
            ichimoku_displacement: default_ichimoku_displacement(),
            cci_period: default_cci_period(),
            williams_r_period: default_williams_r_period(),
            hull_ma_period: default_hull_ma_period(),
            force_index_smoothing: default_force_index_smoothing(),
            stddev_channel_period: default_stddev_channel_period(),
            smc_lookback: default_smc_lookback(),
            volume_profile_bins: default_volume_profile_bins(),
            volume_profile_window: default_volume_profile_window(),
            volume_profile_value_area_valid: true,
        }
    }
}

// ---------------------------------------------------------------------
// Validation
// ---------------------------------------------------------------------

/// The first guard of an indicator configuration that fails.
#[derive(Debug, Clone, Copy, PartialEq, Eq)]
pub enum IndicatorCheck {
    /// A checked period is zero.
    ZeroPeriod(IndicatorPeriod),
    /// The supertrend multiplier is not positive and finite.
    SupertrendMultiplier,
    /// The Keltner multiplier is not positive and finite.
    KeltnerMultiplier,
    /// The volume-profile value area is outside `(0, 1]`.
    VolumeProfileValueArea,
}

/// The first zero period at position `k` or later of the validation order.
pub open spec fn first_zero_period_from(ind: IndicatorsConfig, k: int) -> Option<IndicatorPeriod>
    decreases PERIOD_COUNT - k,
{
    if k < 0 || k >= PERIOD_COUNT {
        None
    } else if ind.period_value(period_at_spec(k)) == 0 {
        Some(period_at_spec(k))
    } else {
        first_zero_period_from(ind, k + 1)
    }
}

/// The first failing guard: the periods in validation order, then the
/// supertrend multiplier, the Keltner multiplier and the value area.
pub open spec fn indicator_check_failure(ind: IndicatorsConfig) -> Option<IndicatorCheck> {
    match first_zero_period_from(ind, 0) {
        Some(p) => Some(IndicatorCheck::ZeroPeriod(p)),
        None => if !ind.supertrend_multiplier_valid {
            Some(IndicatorCheck::SupertrendMultiplier)
        } else if !ind.keltner_multiplier_valid {
            Some(IndicatorCheck::KeltnerMultiplier)
        } else if !ind.volume_profile_value_area_valid {
            Some(IndicatorCheck::VolumeProfileValueArea)
        } else {
            None
        },
    }
}

/// `Ok` exactly when no guard fails; otherwise the first failing guard.
pub open spec fn indicator_check_result(ind: IndicatorsConfig) -> Result<(), IndicatorCheck> {
    match indicator_check_failure(ind) {
        Some(c) => Err(c),
        None => Ok(()),
    }
}

/// Every period must be at least one (a zero period divides by zero or
/// indexes an empty window downstream); the multipliers must be positive
/// and the value area must lie in `(0, 1]`.
pub fn validate_indicators_config(ind: &IndicatorsConfig) -> (r: Result<(), IndicatorCheck>)
    ensures
        r == indicator_check_result(*ind),
{
    let mut k: usize = 0;
    while k < PERIOD_COUNT
        invariant
            k <= PERIOD_COUNT,
            first_zero_period_from(*ind, 0) == first_zero_period_from(*ind, k as int),
        decreases PERIOD_COUNT - k,
    {
        let p = period_at(k);
        if ind.period(p) == 0 {
            return Err(IndicatorCheck::ZeroPeriod(p));
        }
        k = k + 1;
    }
    if !ind.supertrend_multiplier_valid {
        return Err(IndicatorCheck::SupertrendMultiplier);
    }
    if !ind.keltner_multiplier_valid {
        return Err(IndicatorCheck::KeltnerMultiplier);
    }
    if !ind.volume_profile_value_area_valid {
        return Err(IndicatorCheck::VolumeProfileValueArea);
    }
    Ok(())
}

/// A configuration whose checked periods are all positive and whose
/// floating-point guards hold passes validation.
pub proof fn lemma_positive_periods_pass(ind: IndicatorsConfig)
    requires
        forall|p: IndicatorPeriod| #[trigger] ind.period_value(p) > 0,
        ind.supertrend_multiplier_valid,
        ind.keltner_multiplier_valid,
        ind.volume_profile_value_area_valid,
    ensures
        indicator_check_failure(ind) is None,
{
    lemma_no_zero_from(ind, 0);
}

proof fn lemma_no_zero_from(ind: IndicatorsConfig, k: int)
    requires
        forall|p: IndicatorPeriod| #[trigger] ind.period_value(p) > 0,
    ensures
        first_zero_period_from(ind, k) is None,
    decreases PERIOD_COUNT - k,
{
    if 0 <= k < PERIOD_COUNT {
        assert(ind.period_value(period_at_spec(k)) > 0);
        lemma_no_zero_from(ind, k + 1);
    }
}


/// The static defaults pass indicator validation.
pub proof fn lemma_default_indicators_pass(ind: IndicatorsConfig)
    requires
        has_default_settings(ind),
    ensures
        indicator_check_failure(ind) is None,
{
    assert forall|p: IndicatorPeriod| #[trigger] ind.period_value(p) > 0 by {
        match p {
            IndicatorPeriod::EmaFast => {},
            IndicatorPeriod::EmaMedium => {},
            IndicatorPeriod::EmaSlow => {},
            IndicatorPeriod::EmaLong => {},
            IndicatorPeriod::RsiPeriod => {},
            IndicatorPeriod::MacdFast => {},
            IndicatorPeriod::MacdSlow => {},
            IndicatorPeriod::MacdSignal => {},
            IndicatorPeriod::AdxPeriod => {},
            IndicatorPeriod::AtrPeriod => {},
            IndicatorPeriod::SqueezePeriod => {},
            IndicatorPeriod::StochKPeriod => {},
            IndicatorPeriod::StochDPeriod => {},
            IndicatorPeriod::StochSPeriod => {},
            IndicatorPeriod::ChandemoPeriod => {},
            IndicatorPeriod::SupertrendPeriod => {},
            IndicatorPeriod::KeltnerEmaPeriod => {},
            IndicatorPeriod::KeltnerAtrPeriod => {},
            IndicatorPeriod::DonchianPeriod => {},
            IndicatorPeriod::ObvSmoothing => {},
            IndicatorPeriod::CmfPeriod => {},
            IndicatorPeriod::MfiPeriod => {},
            IndicatorPeriod::HvPeriod => {},
            IndicatorPeriod::AroonPeriod => {},
            IndicatorPeriod::ChopPeriod => {},
            IndicatorPeriod::LinregPeriod => {},
            IndicatorPeriod::ZscorePeriod => {},
            IndicatorPeriod::BbwpLookback => {},
            IndicatorPeriod::BbwpPeriod => {},
            IndicatorPeriod::SqueezeBbPeriod => {},
            IndicatorPeriod::SqueezeKcPeriod => {},
            IndicatorPeriod::VolumeAveragePeriod => {},
            IndicatorPeriod::IchimokuTenkan => {},
            IndicatorPeriod::IchimokuKijun => {},
            IndicatorPeriod::IchimokuSenkouB => {},
            IndicatorPeriod::IchimokuDisplacement => {},
            IndicatorPeriod::CciPeriod => {},
            IndicatorPeriod::WilliamsRPeriod => {},
            IndicatorPeriod::HullMaPeriod => {},
            IndicatorPeriod::ForceIndexSmoothing => {},
            IndicatorPeriod::StddevChannelPeriod => {},
            IndicatorPeriod::SmcLookback => {},
            IndicatorPeriod::VolumeProfileBins => {},
            IndicatorPeriod::VolumeProfileWindow => {},
        }
    }
    lemma_positive_periods_pass(ind);
}

// ---------------------------------------------------------------------
// Per-duration profile
// ---------------------------------------------------------------------

/// The profile value of a checked period for a duration: the tuned value
/// of its tier where the profile tunes it, the static default otherwise.
pub open spec fn profile_period(secs: u64, p: IndicatorPeriod) -> usize {
    match p {
        IndicatorPeriod::EmaFast => {
            if secs == 1 || secs == 3 { 3 }
            else if secs == 5 { 3 }
            else if secs == 15 { 5 }
            else if secs == 30 { 5 }
            else if secs == 60 { 5 }
            else if secs == 180 { 8 }
            else if secs == 300 { 8 }
            else if secs == 900 { 8 }
            else if secs == 1800 { 10 }
            else if secs == 3600 { 10 }
            else if secs == 14400 { 10 }
            else if secs == 43200 { 20 }
            else if secs == 86400 { 20 }
            else { default_period(p) }
        },
        IndicatorPeriod::EmaMedium => {
            if secs == 1 || secs == 3 { 8 }
            else if secs == 5 { 9 }
            else if secs == 15 { 10 }
            else if secs == 30 { 13 }
            else if secs == 60 { 13 }
            else if secs == 180 { 21 }
            else if secs == 300 { 21 }
            else if secs == 900 { 21 }
            else if secs == 1800 { 21 }
            else if secs == 3600 { 21 }
            else if secs == 14400 { 20 }
            else if secs == 43200 { 50 }
            else if secs == 86400 { 50 }
            else { default_period(p) }
        },
        IndicatorPeriod::EmaSlow => {
            if secs == 1 || secs == 3 { 21 }
            else if secs == 5 { 21 }
            else if secs == 15 { 21 }
            else if secs == 30 { 34 }
            else if secs == 60 { 34 }
            else if secs == 180 { 55 }
            else if secs == 300 { 55 }
            else if secs == 900 { 55 }
            else if secs == 1800 { 55 }
            else if secs == 3600 { 55 }
            else if secs == 14400 { 50 }
            else if secs == 43200 { 100 }
            else if secs == 86400 { 100 }
            else { default_period(p) }
        },
        IndicatorPeriod::EmaLong => {
            if secs == 1 || secs == 3 { 55 }
            else if secs == 5 { 55 }
            else if secs == 15 { 55 }
            else if secs == 30 { 89 }
            else if secs == 60 { 89 }
            else if secs == 180 { 144 }
            else if secs == 300 { 144 }
            else if secs == 900 { 144 }
            else if secs == 1800 { 144 }
            else if secs == 3600 { 200 }
            else if secs == 14400 { 200 }
            else if secs == 43200 { 200 }
            else if secs == 86400 { 200 }
            else { default_period(p) }
        },
        IndicatorPeriod::RsiPeriod => {
            if secs == 1 || secs == 3 { 7 }
            else if secs == 5 { 7 }
            else if secs == 15 { 9 }
            else if secs == 30 { 10 }
            else if secs == 60 { 11 }
            else if secs == 180 { 12 }
            else if secs == 300 { 14 }
            else if secs == 900 { 14 }
            else if secs == 1800 { 14 }
            else if secs == 3600 { 14 }
            else { default_period(p) }
        },
        IndicatorPeriod::MacdFast => {
            if secs == 1 || secs == 3 { 5 }
            else if secs == 5 { 5 }
            else if secs == 15 { 6 }
            else if secs == 30 { 8 }
            else if secs == 60 { 8 }
            else if secs == 180 { 12 }
            else if secs == 300 { 12 }
            else if secs == 900 { 12 }
            else if secs == 1800 { 12 }
            else if secs == 3600 { 12 }
            else { default_period(p) }
        },
        IndicatorPeriod::MacdSlow => {
            if secs == 1 || secs == 3 { 13 }
            else if secs == 5 { 13 }
            else if secs == 15 { 15 }
            else if secs == 30 { 17 }
            else if secs == 60 { 17 }
            else if secs == 180 { 26 }
            else if secs == 300 { 26 }
            else if secs == 900 { 26 }
            else if secs == 1800 { 26 }
            else if secs == 3600 { 26 }
            else { default_period(p) }
        },
        IndicatorPeriod::MacdSignal => {
            if secs == 1 || secs == 3 { 4 }
            else if secs == 5 { 4 }
            else if secs == 15 { 5 }
            else if secs == 30 { 5 }
            else if secs == 60 { 5 }
            else if secs == 180 { 9 }
            else if secs == 300 { 9 }
            else if secs == 900 { 9 }
            else if secs == 1800 { 9 }
            else if secs == 3600 { 9 }
            else { default_period(p) }
        },
        IndicatorPeriod::AdxPeriod => {
            if secs == 1 || secs == 3 { 7 }
            else if secs == 5 { 7 }
            else if secs == 15 { 8 }
            else if secs == 30 { 10 }
            else if secs == 60 { 10 }
            else if secs == 180 { 14 }
            else if secs == 300 { 14 }
            else if secs == 900 { 14 }
            else if secs == 1800 { 14 }
            else if secs == 3600 { 14 }
            else if secs == 14400 { 14 }
            else if secs == 43200 { 14 }
            else { default_period(p) }
        },
        IndicatorPeriod::AtrPeriod => {
            if secs == 1 || secs == 3 { 7 }
            else if secs == 5 { 7 }
            else if secs == 15 { 9 }
            else if secs == 30 { 10 }
            else if secs == 60 { 10 }
            else if secs == 180 { 14 }
            else if secs == 300 { 14 }
            else if secs == 900 { 14 }
            else if secs == 1800 { 14 }
            else if secs == 3600 { 14 }
            else { default_period(p) }
        },
        IndicatorPeriod::SqueezePeriod => {
            if secs == 1 || secs == 3 { 14 }
            else if secs == 5 { 14 }
            else if secs == 15 { 16 }
            else if secs == 30 { 18 }
            else if secs == 60 { 20 }
            else if secs == 180 { 20 }
            else if secs == 300 { 20 }
            else if secs == 900 { 20 }
            else if secs == 1800 { 20 }
            else if secs == 3600 { 20 }
            else { default_period(p) }
        },
        IndicatorPeriod::StochKPeriod => {
            if secs == 1 || secs == 3 { 7 }
            else if secs == 5 { 7 }
            else if secs == 15 { 9 }
            else if secs == 30 { 10 }
            else if secs == 60 { 12 }
            else if secs == 180 { 12 }
            else if secs == 300 { 14 }
            else if secs == 900 { 14 }
            else if secs == 1800 { 14 }
            else if secs == 3600 { 14 }
            else { default_period(p) }
        },
        IndicatorPeriod::StochDPeriod => {
            if secs == 1800 { 3 }
            else { default_period(p) }
        },
        IndicatorPeriod::StochSPeriod => {
            if secs == 1800 { 3 }
            else { default_period(p) }
        },
        IndicatorPeriod::ChandemoPeriod => {
            if secs == 1 || secs == 3 { 9 }
            else if secs == 5 { 9 }
            else if secs == 15 { 10 }
            else if secs == 30 { 12 }
            else if secs == 60 { 12 }
            else if secs == 180 { 14 }
            else if secs == 300 { 14 }
            else if secs == 900 { 14 }
            else if secs == 1800 { 14 }
            else if secs == 3600 { 14 }
            else if secs == 14400 { 20 }
            else { default_period(p) }
        },
        IndicatorPeriod::SupertrendPeriod => {
            if secs == 1 || secs == 3 { 7 }
            else if secs == 5 { 7 }
            else if secs == 15 { 8 }
            else if secs == 30 { 10 }
            else if secs == 60 { 10 }
            else if secs == 180 { 10 }
            else if secs == 300 { 10 }
            else if secs == 900 { 10 }
            else if secs == 1800 { 12 }
            else if secs == 3600 { 12 }
            else if secs == 14400 { 14 }
            else { default_period(p) }
        },
        IndicatorPeriod::KeltnerEmaPeriod => {
            if secs == 1 || secs == 3 { 10 }
            else if secs == 5 { 10 }
            else if secs == 15 { 12 }
            else if secs == 30 { 14 }
            else if secs == 60 { 14 }
            else if secs == 180 { 20 }
            else if secs == 300 { 20 }
            else if secs == 900 { 20 }
            else if secs == 1800 { 20 }
            else if secs == 3600 { 20 }
            else { default_period(p) }
        },
        IndicatorPeriod::KeltnerAtrPeriod => {
            if secs == 1 || secs == 3 { 10 }
            else if secs == 5 { 10 }
            else if secs == 15 { 12 }
            else if secs == 30 { 14 }
            else if secs == 60 { 14 }
            else if secs == 180 { 20 }
            else if secs == 300 { 20 }
            else if secs == 900 { 20 }
            else if secs == 1800 { 20 }
            else if secs == 3600 { 20 }
            else { default_period(p) }
        },
        IndicatorPeriod::DonchianPeriod => {
            if secs == 1 || secs == 3 { 20 }
            else if secs == 15 { 24 }
            else if secs == 30 { 30 }
            else if secs == 60 { 30 }
            else if secs == 180 { 40 }
            else if secs == 300 { 40 }
            else if secs == 900 { 48 }
            else if secs == 1800 { 55 }
            else if secs == 3600 { 55 }
            else if secs == 86400 { 20 }
            else { default_period(p) }
        },
        IndicatorPeriod::ObvSmoothing => {
            if secs == 1 || secs == 3 { 20 }
            else if secs == 1800 { 30 }
            else if secs == 3600 { 30 }
            else { default_period(p) }
        },
        IndicatorPeriod::CmfPeriod => {
            if secs == 1 || secs == 3 { 10 }
            else if secs == 5 { 10 }
            else if secs == 15 { 14 }
            else if secs == 30 { 14 }
            else if secs == 60 { 20 }
            else if secs == 180 { 20 }
            else if secs == 300 { 20 }
            else if secs == 900 { 20 }
            else if secs == 1800 { 20 }
            else if secs == 3600 { 20 }
            else { default_period(p) }
        },
        IndicatorPeriod::MfiPeriod => {
            if secs == 1 || secs == 3 { 7 }
            else if secs == 5 { 7 }
            else if secs == 15 { 9 }
            else if secs == 30 { 10 }
            else if secs == 60 { 14 }
            else if secs == 180 { 14 }
            else if secs == 300 { 14 }
            else if secs == 900 { 14 }
            else if secs == 1800 { 14 }
            else if secs == 3600 { 14 }
            else { default_period(p) }
        },
        IndicatorPeriod::HvPeriod => default_period(p),
        IndicatorPeriod::AroonPeriod => {
            if secs == 1 || secs == 3 { 14 }
            else if secs == 5 { 14 }
            else if secs == 15 { 20 }
            else if secs == 30 { 20 }
            else if secs == 60 { 25 }
            else if secs == 180 { 25 }
            else if secs == 300 { 25 }
            else if secs == 900 { 25 }
            else if secs == 1800 { 25 }
            else if secs == 3600 { 25 }
            else { default_period(p) }
        },
        IndicatorPeriod::ChopPeriod => {
            if secs == 1 || secs == 3 { 10 }
            else if secs == 5 { 10 }
            else if secs == 15 { 12 }
            else if secs == 30 { 14 }
            else if secs == 60 { 14 }
            else if secs == 180 { 14 }
            else if secs == 300 { 14 }
            else if secs == 900 { 14 }
            else if secs == 1800 { 14 }
            else if secs == 3600 { 14 }
            else { default_period(p) }
        },
        IndicatorPeriod::LinregPeriod => {
            if secs == 1 || secs == 3 { 20 }
            else if secs == 5 { 20 }
            else if secs == 15 { 30 }
            else if secs == 30 { 30 }
            else if secs == 60 { 40 }
            else if secs == 180 { 50 }
            else if secs == 300 { 50 }
            else if secs == 900 { 50 }
            else if secs == 1800 { 50 }
            else if secs == 3600 { 50 }
            else { default_period(p) }
        },
        IndicatorPeriod::ZscorePeriod => {
            if secs == 1 || secs == 3 { 20 }
            else if secs == 5 { 20 }
            else if secs == 15 { 30 }
            else if secs == 30 { 30 }
            else if secs == 60 { 40 }
            else if secs == 180 { 50 }
            else if secs == 300 { 50 }
            else if secs == 900 { 50 }
            else if secs == 1800 { 50 }
            else if secs == 3600 { 50 }
            else { default_period(p) }
        },
        IndicatorPeriod::BbwpLookback => {
            if secs == 1 || secs == 3 { 100 }
            else if secs == 5 { 120 }
            else if secs == 15 { 150 }
            else if secs == 30 { 150 }
            else if secs == 60 { 200 }
            else if secs == 180 { 252 }
            else if secs == 300 { 252 }
            else if secs == 900 { 252 }
            else if secs == 1800 { 252 }
            else if secs == 3600 { 252 }
            else { default_period(p) }
        },
        IndicatorPeriod::BbwpPeriod => {
            if secs == 1 || secs == 3 { 14 }
            else if secs == 5 { 14 }
            else if secs == 15 { 16 }
            else if secs == 30 { 18 }
            else if secs == 60 { 20 }
            else if secs == 180 { 20 }
            else if secs == 300 { 20 }
            else if secs == 900 { 20 }
            else if secs == 1800 { 20 }
            else if secs == 3600 { 20 }
            else { default_period(p) }
        },
        IndicatorPeriod::SqueezeBbPeriod => {
            if secs == 1 || secs == 3 { 14 }
            else if secs == 5 { 14 }
            else if secs == 15 { 16 }
            else if secs == 30 { 18 }
            else if secs == 60 { 20 }
            else if secs == 180 { 20 }
            else if secs == 300 { 20 }
            else if secs == 900 { 20 }
            else if secs == 1800 { 20 }
            else if secs == 3600 { 20 }
            else { default_period(p) }
        },
        IndicatorPeriod::SqueezeKcPeriod => {
            if secs == 1 || secs == 3 { 14 }
            else if secs == 5 { 14 }
            else if secs == 15 { 16 }
            else if secs == 30 { 18 }
            else if secs == 60 { 20 }
            else if secs == 180 { 20 }
            else if secs == 300 { 20 }
            else if secs == 900 { 20 }
            else if secs == 1800 { 20 }
            else if secs == 3600 { 20 }
            else { default_period(p) }
        },
        IndicatorPeriod::VolumeAveragePeriod => {
            if secs == 1 || secs == 3 { 20 }
            else { default_period(p) }
        },
        IndicatorPeriod::IchimokuTenkan => {
            if secs == 1 || secs == 3 { 7 }
            else if secs == 5 { 7 }
            else if secs == 15 { 9 }
            else if secs == 30 { 9 }
            else if secs == 60 { 9 }
            else if secs == 180 { 9 }
            else if secs == 300 { 9 }
            else if secs == 900 { 9 }
            else if secs == 1800 { 12 }
            else if secs == 3600 { 12 }
            else if secs == 14400 { 12 }
            else if secs == 86400 { 20 }
            else { default_period(p) }
        },
        IndicatorPeriod::IchimokuKijun => {
            if secs == 1 || secs == 3 { 22 }
            else if secs == 5 { 22 }
            else if secs == 15 { 26 }
            else if secs == 30 { 26 }
            else if secs == 60 { 26 }
            else if secs == 180 { 26 }
            else if secs == 300 { 26 }
            else if secs == 900 { 26 }
            else if secs == 1800 { 30 }
            else if secs == 3600 { 30 }
            else if secs == 14400 { 36 }
            else if secs == 86400 { 60 }
            else { default_period(p) }
        },
        IndicatorPeriod::IchimokuSenkouB => {
            if secs == 1 || secs == 3 { 44 }
            else if secs == 5 { 44 }
            else if secs == 15 { 52 }
            else if secs == 30 { 52 }
            else if secs == 60 { 52 }
            else if secs == 180 { 52 }
            else if secs == 300 { 52 }
            else if secs == 900 { 52 }
            else if secs == 1800 { 60 }
            else if secs == 3600 { 60 }
            else if secs == 14400 { 72 }
            else if secs == 86400 { 120 }
            else { default_period(p) }
        },
        IndicatorPeriod::IchimokuDisplacement => default_period(p),
        IndicatorPeriod::CciPeriod => {
            if secs == 1 || secs == 3 { 10 }
            else if secs == 5 { 10 }
            else if secs == 15 { 12 }
            else if secs == 30 { 14 }
            else if secs == 60 { 14 }
            else if secs == 180 { 20 }
            else if secs == 300 { 20 }
            else if secs == 900 { 20 }
            else if secs == 1800 { 20 }
            else if secs == 3600 { 20 }
            else { default_period(p) }
        },
        IndicatorPeriod::WilliamsRPeriod => {
            if secs == 1 || secs == 3 { 7 }
            else if secs == 5 { 7 }
            else if secs == 15 { 9 }
            else if secs == 30 { 10 }
            else if secs == 60 { 14 }
            else if secs == 180 { 14 }
            else if secs == 300 { 14 }
            else if secs == 900 { 14 }
            else if secs == 1800 { 14 }
            else if secs == 3600 { 14 }
            else { default_period(p) }
        },
        IndicatorPeriod::HullMaPeriod => {
            if secs == 1 || secs == 3 { 12 }
            else if secs == 5 { 14 }
            else if secs == 15 { 16 }
            else if secs == 30 { 18 }
            else if secs == 60 { 20 }
            else if secs == 180 { 24 }
            else if secs == 300 { 24 }
            else if secs == 900 { 32 }
            else if secs == 1800 { 55 }
            else if secs == 3600 { 55 }
            else { default_period(p) }
        },
        IndicatorPeriod::ForceIndexSmoothing => {
            if secs == 1 || secs == 3 { 5 }
            else if secs == 5 { 5 }
            else if secs == 15 { 7 }
            else if secs == 30 { 7 }
            else if secs == 60 { 13 }
            else if secs == 180 { 13 }
            else if secs == 300 { 13 }
            else if secs == 900 { 13 }
            else if secs == 1800 { 13 }
            else if secs == 3600 { 13 }
            else { default_period(p) }
        },
        IndicatorPeriod::StddevChannelPeriod => {
            if secs == 1 || secs == 3 { 30 }
            else if secs == 5 { 30 }
            else if secs == 15 { 40 }
            else if secs == 30 { 40 }
            else if secs == 60 { 50 }
            else if secs == 180 { 75 }
            else if secs == 300 { 75 }
            else if secs == 900 { 100 }
            else if secs == 1800 { 100 }
            else if secs == 3600 { 100 }
            else { default_period(p) }
        },
        IndicatorPeriod::SmcLookback => default_period(p),
        IndicatorPeriod::VolumeProfileBins => default_period(p),
        IndicatorPeriod::VolumeProfileWindow => default_period(p),
    }
}

/// The profile value of `adx_trend_threshold` for a duration.
pub open spec fn profile_adx_trend_threshold(secs: u64) -> u32 {
    if secs == 1 || secs == 3 { 18 }
    else if secs == 5 { 18 }
    else if secs == 15 { 18 }
    else if secs == 30 { 18 }
    else if secs == 60 { 20 }
    else if secs == 180 { 20 }
    else if secs == 300 { 20 }
    else if secs == 900 { 20 }
    else if secs == 1800 { 20 }
    else if secs == 3600 { 20 }
    else if secs == 14400 { 22 }
    else if secs == 43200 { 25 }
    else { 20 }
}

/// The profile value of `adx_exhaustion_threshold` for a duration.
pub open spec fn profile_adx_exhaustion_threshold(secs: u64) -> u32 {
    if secs == 1 || secs == 3 { 35 }
    else if secs == 5 { 35 }
    else if secs == 15 { 35 }
    else if secs == 30 { 38 }
    else if secs == 60 { 40 }
    else if secs == 180 { 40 }
    else if secs == 300 { 40 }
    else if secs == 900 { 40 }
    else if secs == 1800 { 40 }
    else if secs == 3600 { 40 }
    else if secs == 14400 { 40 }
    else if secs == 43200 { 45 }
    else { 40 }
}

/// `cfg` is the profile of `secs`: its checked periods and ADX thresholds
/// are the profile's, every other setting is the static default.
pub open spec fn is_profile_of(cfg: IndicatorsConfig, secs: u64) -> bool {
    &&& forall|p: IndicatorPeriod| #[trigger] cfg.period_value(p) == profile_period(secs, p)
    &&& cfg.adx_trend_threshold == profile_adx_trend_threshold(secs)
    &&& cfg.adx_exhaustion_threshold == profile_adx_exhaustion_threshold(secs)
    &&& cfg.adx_slope_lookback == 3
    &&& cfg.squeeze_min_duration == 5
    &&& cfg.heatmap_leverage_tiers@ == seq![10u32]
    &&& cfg.pivot_points_method@ == "classic"@
    &&& cfg.supertrend_multiplier_valid
    &&& cfg.keltner_multiplier_valid
    &&& cfg.volume_profile_value_area_valid
}

/// The per-duration indicator baseline: the profile row of `secs` laid over
/// the static defaults. Durations outside the pool get the static defaults.
///
/// The profile also tunes floating-point columns (supertrend and Keltner
/// multipliers between 1.4 and 3.0, squeeze Bollinger and Keltner widths,
/// parabolic SAR steps); those are applied by the holder of the
/// floating-point settings. All tuned multipliers are positive, so the
/// guard verdicts stay those of the defaults.
pub fn for_duration(secs: u64) -> (cfg: IndicatorsConfig)
    ensures
        is_profile_of(cfg, secs),
{
    let mut cfg = IndicatorsConfig::default();
    if secs == 1 || secs == 3 {
        cfg.ema_fast = 3;
        cfg.ema_medium = 8;
        cfg.ema_slow = 21;
        cfg.ema_long = 55;
        cfg.rsi_period = 7;
        cfg.macd_fast = 5;
        cfg.macd_slow = 13;
        cfg.macd_signal = 4;
        cfg.adx_period = 7;
        cfg.adx_trend_threshold = 18;
        cfg.adx_exhaustion_threshold = 35;
        cfg.atr_period = 7;
        cfg.supertrend_period = 7;
        cfg.donchian_period = 20;
        cfg.keltner_ema_period = 10;
        cfg.keltner_atr_period = 10;
        cfg.ichimoku_tenkan = 7;
        cfg.ichimoku_kijun = 22;
        cfg.ichimoku_senkou_b = 44;
        cfg.hull_ma_period = 12;
        cfg.stoch_k_period = 7;
        cfg.chandemo_period = 9;
        cfg.williams_r_period = 7;
        cfg.cci_period = 10;
        cfg.bbwp_period = 14;
        cfg.bbwp_lookback = 100;
        cfg.squeeze_period = 14;
        cfg.squeeze_bb_period = 14;
        cfg.squeeze_kc_period = 14;
        cfg.stddev_channel_period = 30;
        cfg.obv_smoothing = 20;
        cfg.cmf_period = 10;
        cfg.mfi_period = 7;
        cfg.force_index_smoothing = 5;
        cfg.aroon_period = 14;
        cfg.chop_period = 10;
        cfg.linreg_period = 20;
        cfg.zscore_period = 20;
        cfg.volume_average_period = 20;
    } else if secs == 5 {
        cfg.ema_fast = 3;
        cfg.ema_medium = 9;
        cfg.ema_slow = 21;
        cfg.ema_long = 55;
        cfg.rsi_period = 7;
        cfg.macd_fast = 5;
        cfg.macd_slow = 13;
        cfg.macd_signal = 4;
        cfg.adx_period = 7;
        cfg.adx_trend_threshold = 18;
        cfg.adx_exhaustion_threshold = 35;
        cfg.atr_period = 7;
        cfg.supertrend_period = 7;
        cfg.keltner_ema_period = 10;
        cfg.keltner_atr_period = 10;
        cfg.ichimoku_tenkan = 7;
        cfg.ichimoku_kijun = 22;
        cfg.ichimoku_senkou_b = 44;
        cfg.hull_ma_period = 14;
        cfg.stoch_k_period = 7;
        cfg.chandemo_period = 9;
        cfg.williams_r_period = 7;
        cfg.cci_period = 10;
        cfg.bbwp_period = 14;
        cfg.bbwp_lookback = 120;
        cfg.squeeze_period = 14;
        cfg.squeeze_bb_period = 14;
        cfg.squeeze_kc_period = 14;
        cfg.stddev_channel_period = 30;
        cfg.cmf_period = 10;
        cfg.mfi_period = 7;
        cfg.force_index_smoothing = 5;
        cfg.aroon_period = 14;
        cfg.chop_period = 10;
        cfg.linreg_period = 20;
        cfg.zscore_period = 20;
    } else if secs == 15 {
        cfg.ema_fast = 5;
        cfg.ema_medium = 10;
        cfg.ema_slow = 21;
        cfg.ema_long = 55;
        cfg.rsi_period = 9;
        cfg.macd_fast = 6;
        cfg.macd_slow = 15;
        cfg.macd_signal = 5;
        cfg.adx_period = 8;
        cfg.adx_trend_threshold = 18;
        cfg.adx_exhaustion_threshold = 35;
        cfg.atr_period = 9;
        cfg.supertrend_period = 8;
        cfg.donchian_period = 24;
        cfg.keltner_ema_period = 12;
        cfg.keltner_atr_period = 12;
        cfg.ichimoku_tenkan = 9;
        cfg.ichimoku_kijun = 26;
        cfg.ichimoku_senkou_b = 52;
        cfg.hull_ma_period = 16;
        cfg.stoch_k_period = 9;
        cfg.chandemo_period = 10;
        cfg.williams_r_period = 9;
        cfg.cci_period = 12;
        cfg.bbwp_period = 16;
        cfg.bbwp_lookback = 150;
        cfg.squeeze_period = 16;
        cfg.squeeze_bb_period = 16;
        cfg.squeeze_kc_period = 16;
        cfg.stddev_channel_period = 40;
        cfg.cmf_period = 14;
        cfg.mfi_period = 9;
        cfg.force_index_smoothing = 7;
        cfg.aroon_period = 20;
        cfg.chop_period = 12;
        cfg.linreg_period = 30;
        cfg.zscore_period = 30;
    } else if secs == 30 {
        cfg.ema_fast = 5;
        cfg.ema_medium = 13;
        cfg.ema_slow = 34;
        cfg.ema_long = 89;
        cfg.rsi_period = 10;
        cfg.macd_fast = 8;
        cfg.macd_slow = 17;
        cfg.macd_signal = 5;
        cfg.adx_period = 10;
        cfg.adx_trend_threshold = 18;
        cfg.adx_exhaustion_threshold = 38;
        cfg.atr_period = 10;
        cfg.supertrend_period = 10;
        cfg.donchian_period = 30;
        cfg.keltner_ema_period = 14;
        cfg.keltner_atr_period = 14;
        cfg.ichimoku_tenkan = 9;
        cfg.ichimoku_kijun = 26;
        cfg.ichimoku_senkou_b = 52;
        cfg.hull_ma_period = 18;
        cfg.stoch_k_period = 10;
        cfg.chandemo_period = 12;
        cfg.williams_r_period = 10;
        cfg.cci_period = 14;
        cfg.bbwp_period = 18;
        cfg.bbwp_lookback = 150;
        cfg.squeeze_period = 18;
        cfg.squeeze_bb_period = 18;
        cfg.squeeze_kc_period = 18;
        cfg.stddev_channel_period = 40;
        cfg.cmf_period = 14;
        cfg.mfi_period = 10;
        cfg.force_index_smoothing = 7;
        cfg.aroon_period = 20;
        cfg.chop_period = 14;
        cfg.linreg_period = 30;
        cfg.zscore_period = 30;
    } else if secs == 60 {
        cfg.ema_fast = 5;
        cfg.ema_medium = 13;
        cfg.ema_slow = 34;
        cfg.ema_long = 89;
        cfg.rsi_period = 11;
        cfg.macd_fast = 8;
        cfg.macd_slow = 17;
        cfg.macd_signal = 5;
        cfg.adx_period = 10;
        cfg.adx_trend_threshold = 20;
        cfg.adx_exhaustion_threshold = 40;
        cfg.atr_period = 10;
        cfg.supertrend_period = 10;
        cfg.donchian_period = 30;
        cfg.keltner_ema_period = 14;
        cfg.keltner_atr_period = 14;
        cfg.ichimoku_tenkan = 9;
        cfg.ichimoku_kijun = 26;
        cfg.ichimoku_senkou_b = 52;
        cfg.hull_ma_period = 20;
        cfg.stoch_k_period = 12;
        cfg.chandemo_period = 12;
        cfg.williams_r_period = 14;
        cfg.cci_period = 14;
        cfg.bbwp_period = 20;
        cfg.bbwp_lookback = 200;
        cfg.squeeze_period = 20;
        cfg.squeeze_bb_period = 20;
        cfg.squeeze_kc_period = 20;
        cfg.stddev_channel_period = 50;
        cfg.cmf_period = 20;
        cfg.mfi_period = 14;
        cfg.force_index_smoothing = 13;
        cfg.aroon_period = 25;
        cfg.chop_period = 14;
        cfg.linreg_period = 40;
        cfg.zscore_period = 40;
    } else if secs == 180 {
        cfg.ema_fast = 8;
        cfg.ema_medium = 21;
        cfg.ema_slow = 55;
        cfg.ema_long = 144;
        cfg.rsi_period = 12;
        cfg.macd_fast = 12;
        cfg.macd_slow = 26;
        cfg.macd_signal = 9;
        cfg.adx_period = 14;
        cfg.adx_trend_threshold = 20;
        cfg.adx_exhaustion_threshold = 40;
        cfg.atr_period = 14;
        cfg.supertrend_period = 10;
        cfg.donchian_period = 40;
        cfg.keltner_ema_period = 20;
        cfg.keltner_atr_period = 20;
        cfg.ichimoku_tenkan = 9;
        cfg.ichimoku_kijun = 26;
        cfg.ichimoku_senkou_b = 52;
        cfg.hull_ma_period = 24;
        cfg.stoch_k_period = 12;
        cfg.chandemo_period = 14;
        cfg.williams_r_period = 14;
        cfg.cci_period = 20;
        cfg.bbwp_period = 20;
        cfg.bbwp_lookback = 252;
        cfg.squeeze_period = 20;
        cfg.squeeze_bb_period = 20;
        cfg.squeeze_kc_period = 20;
        cfg.stddev_channel_period = 75;
        cfg.cmf_period = 20;
        cfg.mfi_period = 14;
        cfg.force_index_smoothing = 13;
        cfg.aroon_period = 25;
        cfg.chop_period = 14;
        cfg.linreg_period = 50;
        cfg.zscore_period = 50;
    } else if secs == 300 {
        cfg.ema_fast = 8;
        cfg.ema_medium = 21;
        cfg.ema_slow = 55;
        cfg.ema_long = 144;
        cfg.rsi_period = 14;
        cfg.macd_fast = 12;
        cfg.macd_slow = 26;
        cfg.macd_signal = 9;
        cfg.adx_period = 14;
        cfg.adx_trend_threshold = 20;
        cfg.adx_exhaustion_threshold = 40;
        cfg.atr_period = 14;
        cfg.supertrend_period = 10;
        cfg.donchian_period = 40;
        cfg.keltner_ema_period = 20;
        cfg.keltner_atr_period = 20;
        cfg.ichimoku_tenkan = 9;
        cfg.ichimoku_kijun = 26;
        cfg.ichimoku_senkou_b = 52;
        cfg.hull_ma_period = 24;
        cfg.stoch_k_period = 14;
        cfg.chandemo_period = 14;
        cfg.williams_r_period = 14;
        cfg.cci_period = 20;
        cfg.bbwp_period = 20;
        cfg.bbwp_lookback = 252;
        cfg.squeeze_period = 20;
        cfg.squeeze_bb_period = 20;
        cfg.squeeze_kc_period = 20;
        cfg.stddev_channel_period = 75;
        cfg.cmf_period = 20;
        cfg.mfi_period = 14;
        cfg.force_index_smoothing = 13;
        cfg.aroon_period = 25;
        cfg.chop_period = 14;
        cfg.linreg_period = 50;
        cfg.zscore_period = 50;
    } else if secs == 900 {
        cfg.ema_fast = 8;
        cfg.ema_medium = 21;
        cfg.ema_slow = 55;
        cfg.ema_long = 144;
        cfg.rsi_period = 14;
        cfg.macd_fast = 12;
        cfg.macd_slow = 26;
        cfg.macd_signal = 9;
        cfg.adx_period = 14;
        cfg.adx_trend_threshold = 20;
        cfg.adx_exhaustion_threshold = 40;
        cfg.atr_period = 14;
        cfg.supertrend_period = 10;
        cfg.donchian_period = 48;
        cfg.keltner_ema_period = 20;
        cfg.keltner_atr_period = 20;
        cfg.ichimoku_tenkan = 9;
        cfg.ichimoku_kijun = 26;
        cfg.ichimoku_senkou_b = 52;
        cfg.hull_ma_period = 32;
        cfg.stoch_k_period = 14;
        cfg.chandemo_period = 14;
        cfg.williams_r_period = 14;
        cfg.cci_period = 20;
        cfg.bbwp_period = 20;
        cfg.bbwp_lookback = 252;
        cfg.squeeze_period = 20;
        cfg.squeeze_bb_period = 20;
        cfg.squeeze_kc_period = 20;
        cfg.stddev_channel_period = 100;
        cfg.cmf_period = 20;
        cfg.mfi_period = 14;
        cfg.force_index_smoothing = 13;
        cfg.aroon_period = 25;
        cfg.chop_period = 14;
        cfg.linreg_period = 50;
        cfg.zscore_period = 50;
    } else if secs == 1800 {
        cfg.ema_fast = 10;
        cfg.ema_medium = 21;
        cfg.ema_slow = 55;
        cfg.ema_long = 144;
        cfg.rsi_period = 14;
        cfg.macd_fast = 12;
        cfg.macd_slow = 26;
        cfg.macd_signal = 9;
        cfg.adx_period = 14;
        cfg.adx_trend_threshold = 20;
        cfg.adx_exhaustion_threshold = 40;
        cfg.atr_period = 14;
        cfg.supertrend_period = 12;
        cfg.donchian_period = 55;
        cfg.keltner_ema_period = 20;
        cfg.keltner_atr_period = 20;
        cfg.ichimoku_tenkan = 12;
        cfg.ichimoku_kijun = 30;
        cfg.ichimoku_senkou_b = 60;
        cfg.hull_ma_period = 55;
        cfg.stoch_k_period = 14;
        cfg.stoch_d_period = 3;
        cfg.stoch_s_period = 3;
        cfg.chandemo_period = 14;
        cfg.williams_r_period = 14;
        cfg.cci_period = 20;
        cfg.bbwp_period = 20;
        cfg.bbwp_lookback = 252;
        cfg.squeeze_period = 20;
        cfg.squeeze_bb_period = 20;
        cfg.squeeze_kc_period = 20;
        cfg.stddev_channel_period = 100;
        cfg.obv_smoothing = 30;
        cfg.cmf_period = 20;
        cfg.mfi_period = 14;
        cfg.force_index_smoothing = 13;
        cfg.aroon_period = 25;
        cfg.chop_period = 14;
        cfg.linreg_period = 50;
        cfg.zscore_period = 50;
    } else if secs == 3600 {
        cfg.ema_fast = 10;
        cfg.ema_medium = 21;
        cfg.ema_slow = 55;
        cfg.ema_long = 200;
        cfg.rsi_period = 14;
        cfg.macd_fast = 12;
        cfg.macd_slow = 26;
        cfg.macd_signal = 9;
        cfg.adx_period = 14;
        cfg.adx_trend_threshold = 20;
        cfg.adx_exhaustion_threshold = 40;
        cfg.atr_period = 14;
        cfg.supertrend_period = 12;
        cfg.donchian_period = 55;
        cfg.keltner_ema_period = 20;
        cfg.keltner_atr_period = 20;
        cfg.ichimoku_tenkan = 12;
        cfg.ichimoku_kijun = 30;
        cfg.ichimoku_senkou_b = 60;
        cfg.hull_ma_period = 55;
        cfg.stoch_k_period = 14;
        cfg.chandemo_period = 14;
        cfg.williams_r_period = 14;
        cfg.cci_period = 20;
        cfg.bbwp_period = 20;
        cfg.bbwp_lookback = 252;
        cfg.squeeze_period = 20;
        cfg.squeeze_bb_period = 20;
        cfg.squeeze_kc_period = 20;
        cfg.stddev_channel_period = 100;
        cfg.obv_smoothing = 30;
        cfg.cmf_period = 20;
        cfg.mfi_period = 14;
        cfg.force_index_smoothing = 13;
        cfg.aroon_period = 25;
        cfg.chop_period = 14;
        cfg.linreg_period = 50;
        cfg.zscore_period = 50;
    } else if secs == 14400 {
        cfg.ema_fast = 10;
        cfg.ema_medium = 20;
        cfg.ema_slow = 50;
        cfg.ema_long = 200;
        cfg.adx_period = 14;
        cfg.adx_trend_threshold = 22;
        cfg.adx_exhaustion_threshold = 40;
        cfg.ichimoku_tenkan = 12;
        cfg.ichimoku_kijun = 36;
        cfg.ichimoku_senkou_b = 72;
        cfg.chandemo_period = 20;
        cfg.supertrend_period = 14;
    } else if secs == 43200 {
        cfg.ema_fast = 20;
        cfg.ema_medium = 50;
        cfg.ema_slow = 100;
        cfg.ema_long = 200;
        cfg.adx_period = 14;
        cfg.adx_trend_threshold = 25;
        cfg.adx_exhaustion_threshold = 45;
    } else if secs == 86400 {
        cfg.ema_fast = 20;
        cfg.ema_medium = 50;
        cfg.ema_slow = 100;
        cfg.ema_long = 200;
        cfg.donchian_period = 20;
        cfg.ichimoku_tenkan = 20;
        cfg.ichimoku_kijun = 60;
        cfg.ichimoku_senkou_b = 120;
    }
    assert forall|p: IndicatorPeriod| #[trigger] cfg.period_value(p) == profile_period(secs, p) by {
        match p {
            IndicatorPeriod::EmaFast => {},
            IndicatorPeriod::EmaMedium => {},
            IndicatorPeriod::EmaSlow => {},
            IndicatorPeriod::EmaLong => {},
            IndicatorPeriod::RsiPeriod => {},
            IndicatorPeriod::MacdFast => {},
            IndicatorPeriod::MacdSlow => {},
            IndicatorPeriod::MacdSignal => {},
            IndicatorPeriod::AdxPeriod => {},
            IndicatorPeriod::AtrPeriod => {},
            IndicatorPeriod::SqueezePeriod => {},
            IndicatorPeriod::StochKPeriod => {},
            IndicatorPeriod::StochDPeriod => {},
            IndicatorPeriod::StochSPeriod => {},
            IndicatorPeriod::ChandemoPeriod => {},
            IndicatorPeriod::SupertrendPeriod => {},
            IndicatorPeriod::KeltnerEmaPeriod => {},
            IndicatorPeriod::KeltnerAtrPeriod => {},
            IndicatorPeriod::DonchianPeriod => {},
            IndicatorPeriod::ObvSmoothing => {},
            IndicatorPeriod::CmfPeriod => {},
            IndicatorPeriod::MfiPeriod => {},
            IndicatorPeriod::HvPeriod => {},
            IndicatorPeriod::AroonPeriod => {},
            IndicatorPeriod::ChopPeriod => {},
            IndicatorPeriod::LinregPeriod => {},
            IndicatorPeriod::ZscorePeriod => {},
            IndicatorPeriod::BbwpLookback => {},
            IndicatorPeriod::BbwpPeriod => {},
            IndicatorPeriod::SqueezeBbPeriod => {},
            IndicatorPeriod::SqueezeKcPeriod => {},
            IndicatorPeriod::VolumeAveragePeriod => {},
            IndicatorPeriod::IchimokuTenkan => {},
            IndicatorPeriod::IchimokuKijun => {},
            IndicatorPeriod::IchimokuSenkouB => {},
            IndicatorPeriod::IchimokuDisplacement => {},
            IndicatorPeriod::CciPeriod => {},
            IndicatorPeriod::WilliamsRPeriod => {},
            IndicatorPeriod::HullMaPeriod => {},
            IndicatorPeriod::ForceIndexSmoothing => {},
            IndicatorPeriod::StddevChannelPeriod => {},
            IndicatorPeriod::SmcLookback => {},
            IndicatorPeriod::VolumeProfileBins => {},
            IndicatorPeriod::VolumeProfileWindow => {},
        }
    }
    cfg
}

/// Every profile row passes indicator validation.
pub proof fn lemma_profile_passes_validation(cfg: IndicatorsConfig, secs: u64)
    requires
        is_profile_of(cfg, secs),
    ensures
        indicator_check_failure(cfg) is None,
{
    assert forall|p: IndicatorPeriod| #[trigger] cfg.period_value(p) > 0 by {
        assert(cfg.period_value(p) == profile_period(secs, p));
    }
    lemma_positive_periods_pass(cfg);
}

/// The 1 s and 3 s durations share the microstructure tier verbatim.
pub proof fn lemma_microstructure_tier_shared()
    ensures
        forall|p: IndicatorPeriod| #[trigger] profile_period(1, p) == profile_period(3, p),
        profile_adx_trend_threshold(1) == profile_adx_trend_threshold(3),
        profile_adx_exhaustion_threshold(1) == profile_adx_exhaustion_threshold(3),
{
}

/// A duration outside the supported pool gets the static defaults.
pub proof fn lemma_outside_pool_is_default(secs: u64)
    requires
        !is_supported(secs),
    ensures
        forall|p: IndicatorPeriod| #[trigger] profile_period(secs, p) == default_period(p),
        profile_adx_trend_threshold(secs) == 20,
        profile_adx_exhaustion_threshold(secs) == 40,
{
}

/// The checked periods that the profile does not tune and that an overlay
/// keeps from its base.
pub open spec fn kept_by_overlay(p: IndicatorPeriod) -> bool {
    p == IndicatorPeriod::SmcLookback || p == IndicatorPeriod::VolumeProfileBins
        || p == IndicatorPeriod::VolumeProfileWindow
}

/// The profile of `secs` laid over `base`: the profile's values win, and the
/// settings the profile does not tune (heatmap tiers, pivot method, smart
/// money lookback, volume-profile bins, window and value area, ADX slope
/// lookback, squeeze minimum duration) are kept from `base`.
pub fn overlay(base: &IndicatorsConfig, secs: u64) -> (cfg: IndicatorsConfig)
    ensures
        forall|p: IndicatorPeriod| #[trigger] cfg.period_value(p) == if kept_by_overlay(p) {
            base.period_value(p)
        } else {
            profile_period(secs, p)
        },
        cfg.adx_trend_threshold == profile_adx_trend_threshold(secs),
        cfg.adx_exhaustion_threshold == profile_adx_exhaustion_threshold(secs),
        cfg.adx_slope_lookback == base.adx_slope_lookback,
        cfg.squeeze_min_duration == base.squeeze_min_duration,
        cfg.heatmap_leverage_tiers@ == base.heatmap_leverage_tiers@,
        cfg.pivot_points_method@ == base.pivot_points_method@,
        cfg.supertrend_multiplier_valid,
        cfg.keltner_multiplier_valid,
        cfg.volume_profile_value_area_valid == base.volume_profile_value_area_valid,
{
    let mut cfg = for_duration(secs);
    let ghost profile = cfg;
    cfg.heatmap_leverage_tiers = base.heatmap_leverage_tiers.clone();
    cfg.pivot_points_method = base.pivot_points_method.clone();
    cfg.smc_lookback = base.smc_lookback;
    cfg.volume_profile_bins = base.volume_profile_bins;
    cfg.volume_profile_window = base.volume_profile_window;
    cfg.volume_profile_value_area_valid = base.volume_profile_value_area_valid;
    cfg.adx_slope_lookback = base.adx_slope_lookback;
    cfg.squeeze_min_duration = base.squeeze_min_duration;
    assert forall|p: IndicatorPeriod| #[trigger] cfg.period_value(p) == if kept_by_overlay(p) {
        base.period_value(p)
    } else {
        profile_period(secs, p)
    } by {
        assert(profile.period_value(p) == profile_period(secs, p));
        match p {
            IndicatorPeriod::EmaFast => {},
            IndicatorPeriod::EmaMedium => {},
            IndicatorPeriod::EmaSlow => {},
            IndicatorPeriod::EmaLong => {},
            IndicatorPeriod::RsiPeriod => {},
            IndicatorPeriod::MacdFast => {},
            IndicatorPeriod::MacdSlow => {},
            IndicatorPeriod::MacdSignal => {},
            IndicatorPeriod::AdxPeriod => {},
            IndicatorPeriod::AtrPeriod => {},
            IndicatorPeriod::SqueezePeriod => {},
            IndicatorPeriod::StochKPeriod => {},
            IndicatorPeriod::StochDPeriod => {},
            IndicatorPeriod::StochSPeriod => {},
            IndicatorPeriod::ChandemoPeriod => {},
            IndicatorPeriod::SupertrendPeriod => {},
            IndicatorPeriod::KeltnerEmaPeriod => {},
            IndicatorPeriod::KeltnerAtrPeriod => {},
            IndicatorPeriod::DonchianPeriod => {},
            IndicatorPeriod::ObvSmoothing => {},
            IndicatorPeriod::CmfPeriod => {},
            IndicatorPeriod::MfiPeriod => {},
            IndicatorPeriod::HvPeriod => {},
            IndicatorPeriod::AroonPeriod => {},
            IndicatorPeriod::ChopPeriod => {},
            IndicatorPeriod::LinregPeriod => {},
            IndicatorPeriod::ZscorePeriod => {},
            IndicatorPeriod::BbwpLookback => {},
            IndicatorPeriod::BbwpPeriod => {},
            IndicatorPeriod::SqueezeBbPeriod => {},
            IndicatorPeriod::SqueezeKcPeriod => {},
            IndicatorPeriod::VolumeAveragePeriod => {},
            IndicatorPeriod::IchimokuTenkan => {},
            IndicatorPeriod::IchimokuKijun => {},
            IndicatorPeriod::IchimokuSenkouB => {},
            IndicatorPeriod::IchimokuDisplacement => {},
            IndicatorPeriod::CciPeriod => {},
            IndicatorPeriod::WilliamsRPeriod => {},
            IndicatorPeriod::HullMaPeriod => {},
            IndicatorPeriod::ForceIndexSmoothing => {},
            IndicatorPeriod::StddevChannelPeriod => {},
            IndicatorPeriod::SmcLookback => {},
            IndicatorPeriod::VolumeProfileBins => {},
            IndicatorPeriod::VolumeProfileWindow => {},
        }
    }
    cfg
}

} // verus!
