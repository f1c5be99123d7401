//! Workspace configuration sections: chart structure, safety, liquidity,
//! heatmap, data quality, analytics, risk limits and the minimal trade
//! executor, each with its defaults.
//!
//! Of each floating-point setting that workspace validation guards, a
//! section holds the verdict of the guard (`*_valid`), evaluated by the
//! holder of the floating-point value; floating-point settings without a
//! guard are not held here.
use vstd::prelude::*;
use vstd::string::*;

verus! {

// ---------------------------------------------------------------------
// Chart structure
// ---------------------------------------------------------------------

/// Swing detection for Fibonacci levels.
#[derive(Debug, Clone, Copy, PartialEq, Eq)]
pub struct FibonacciConfig {
    pub swing_lookback: usize,
    pub swing_scan_range: usize,
}

fn default_swing_lookback() -> (n: usize)
    ensures
        n == 10,
{
    10
}

fn default_swing_scan_range() -> (n: usize)
    ensures
        n == 120,
{
    120
}

impl FibonacciConfig {
    /// The settings of the default value.
    pub open spec fn is_default(self) -> bool {
        &&& self.swing_lookback == 10
        &&& self.swing_scan_range == 120
    }
}

impl Default for FibonacciConfig {
    fn default() -> (c: Self)
        ensures
            c.is_default(),
    {
        FibonacciConfig { swing_lookback: default_swing_lookback(), swing_scan_range: default_swing_scan_range() }
    }
}

/// Pivot detection.
#[derive(Debug, Clone, Copy, PartialEq, Eq)]
pub struct PivotsConfig {
    pub strength_n: usize,
    pub scan_range_candles: usize,
}

fn default_pivot_strength_n() -> (n: usize)
    ensures
        n == 10,
{
    10
}

fn default_scan_range_candles() -> (n: usize)
    ensures
        n == 120,
{
    120
}

impl PivotsConfig {
    /// The settings of the default value.
    pub open spec fn is_default(self) -> bool {
        &&& self.strength_n == 10
        &&& self.scan_range_candles == 120
    }
}

impl Default for PivotsConfig {
    fn default() -> (c: Self)
        ensures
            c.is_default(),
    {
        PivotsConfig { strength_n: default_pivot_strength_n(), scan_range_candles: default_scan_range_candles() }
    }
}

/// Order-book depth analysis.
#[derive(Debug, Clone, Copy, PartialEq, Eq)]
pub struct OrderBookConfig {
    pub depth_levels: usize,
}

fn default_ob_depth_levels() -> (n: usize)
    ensures
        n == 20,
{
    20
}

impl OrderBookConfig {
    /// The settings of the default value.
    pub open spec fn is_default(self) -> bool {
        &&& self.depth_levels == 20
    }
}

impl Default for OrderBookConfig {
    fn default() -> (c: Self)
        ensures
            c.is_default(),
    {
        OrderBookConfig { depth_levels: default_ob_depth_levels() }
    }
}

/// Opportunity-matrix switches.
#[derive(Debug, Clone, Copy, PartialEq, Eq)]
pub struct OpportunityMatrixConfig {
    pub confluent_atr_fallback_enabled: bool,
}

fn default_confluent_atr_fallback_enabled() -> (b: bool)
    ensures
        b,
{
    true
}

impl OpportunityMatrixConfig {
    /// The settings of the default value.
    pub open spec fn is_default(self) -> bool {
        &&& self.confluent_atr_fallback_enabled
    }
}

impl Default for OpportunityMatrixConfig {
    fn default() -> (c: Self)
        ensures
            c.is_default(),
    {
        OpportunityMatrixConfig { confluent_atr_fallback_enabled: default_confluent_atr_fallback_enabled() }
    }
}

// ---------------------------------------------------------------------
// Safety
// ---------------------------------------------------------------------

/// Consecutive-loss caution and dropout.
#[derive(Debug, Clone, PartialEq, Eq)]
pub struct SafetyConfig {
    pub consecutive_loss_caution: u32,
    pub consecutive_loss_dropout: u32,
    pub dropout_duration_hours: u64,
    pub session_reset_cron: Option<String>,
}

fn default_consecutive_loss_caution() -> (n: u32)
    ensures
        n == 3,
{
    3
}

fn default_consecutive_loss_dropout() -> (n: u32)
    ensures
        n == 5,
{
    5
}

fn default_dropout_duration_hours() -> (n: u64)
    ensures
        n == 8,
{
    8
}

impl SafetyConfig {
    /// The settings of the default value.
    pub open spec fn is_default(self) -> bool {
        &&& self.consecutive_loss_caution == 3
        &&& self.consecutive_loss_dropout == 5
        &&& self.dropout_duration_hours == 8
        &&& self.session_reset_cron is None
    }
}

impl Default for SafetyConfig {
    fn default() -> (c: Self)
        ensures
            c.is_default(),
    {
        SafetyConfig {
            consecutive_loss_caution: default_consecutive_loss_caution(),
            consecutive_loss_dropout: default_consecutive_loss_dropout(),
            dropout_duration_hours: default_dropout_duration_hours(),
            session_reset_cron: None,
        }
    }
}

// ---------------------------------------------------------------------
// Liquidity intelligence
// ---------------------------------------------------------------------

/// Derivatives telemetry, liquidation ingestion and cluster estimation.
#[derive(Debug, Clone, PartialEq, Eq)]
pub struct LiquidityConfig {
    pub enabled: bool,
    pub liquidation_feed: bool,
    pub cluster_estimation: bool,
    pub signals: bool,
    pub mark_price_poll_ms: u64,
    pub event_retention_days: u32,
    pub bucket_retention_days: u32,
    /// `0` synchronises the cluster refresh with the timeframe cadence.
    pub cluster_refresh_secs: u64,
    /// The maintenance margin rate lies in `(0, 1]`.
    pub maintenance_margin_rate_valid: bool,
    pub cascade_sustained_events: u32,
    /// The minimum cluster notional is finite and not negative.
    pub min_cluster_notional_usd_valid: bool,
    pub hyperliquid_user_address: String,
}

fn default_liquidity_enabled() -> (b: bool)
    ensures
        b,
{
    true
}

fn default_mark_poll_ms() -> (n: u64)
    ensures
        n == 60_000,
{
    60_000
}

fn default_liquidation_retention_days() -> (n: u32)
    ensures
        n == 90,
{
    90
}

fn default_liquidation_bucket_retention_days() -> (n: u32)
    ensures
        n == 7,
{
    7
}

fn default_cluster_refresh_secs() -> (n: u64)
    ensures
        n == 0,
{
    0
}

fn default_cascade_sustained_events() -> (n: u32)
    ensures
        n == 3,
{
    3
}

impl LiquidityConfig {
    /// The settings of the default value.
    pub open spec fn is_default(self) -> bool {
        &&& self.enabled
        &&& self.liquidation_feed
        &&& self.cluster_estimation
        &&& self.signals
        &&& self.mark_price_poll_ms == 60_000
        &&& self.event_retention_days == 90
        &&& self.bucket_retention_days == 7
        &&& self.cluster_refresh_secs == 0
        &&& self.maintenance_margin_rate_valid
        &&& self.cascade_sustained_events == 3
        &&& self.min_cluster_notional_usd_valid
        &&& self.hyperliquid_user_address@ == Seq::<char>::empty()
    }
}

impl Default for LiquidityConfig {
    /// Defaults: enabled, 60 s mark polling, 90-day event and 7-day bucket
    /// retention, cadence-synchronised cluster refresh, margin rate 0.005
    /// and minimum cluster notional 50 000 USD (both inside their ranges).
    fn default() -> (c: Self)
        ensures
            c.is_default(),
    {
        LiquidityConfig {
            enabled: default_liquidity_enabled(),
            liquidation_feed: true,
            cluster_estimation: true,
            signals: true,
            mark_price_poll_ms: default_mark_poll_ms(),
            event_retention_days: default_liquidation_retention_days(),
            bucket_retention_days: default_liquidation_bucket_retention_days(),
            cluster_refresh_secs: default_cluster_refresh_secs(),
            maintenance_margin_rate_valid: true,
            cascade_sustained_events: default_cascade_sustained_events(),
            min_cluster_notional_usd_valid: true,
            hyperliquid_user_address: String::new(),
        }
    }
}

/// Per-timeframe leverage distribution for the cluster estimator.
#[derive(Debug, Clone, PartialEq, Eq)]
pub struct TfLeverageConfig {
    pub enabled: bool,
    /// Leverage buckets, ascending.
    pub buckets: Vec<u32>,
}

fn default_leverage_buckets() -> (v: Vec<u32>)
    ensures
        v@ == seq![1u32, 3, 5, 10, 20, 50, 100],
{
    let v: Vec<u32> = vec![1, 3, 5, 10, 20, 50, 100];
    v
}

impl TfLeverageConfig {
    /// The settings of the default value.
    pub open spec fn is_default(self) -> bool {
        &&& self.enabled
        &&& self.buckets@ == seq![1u32, 3, 5, 10, 20, 50, 100]
    }
}

impl Default for TfLeverageConfig {
    fn default() -> (c: Self)
        ensures
            c.is_default(),
    {
        TfLeverageConfig { enabled: true, buckets: default_leverage_buckets() }
    }
}

/// The price-bucketed real-liquidation heatmap.
#[derive(Debug, Clone, Copy, PartialEq, Eq)]
pub struct HeatmapConfig {
    pub enabled: bool,
    /// The bucket width (a fraction of mid) lies in `(0, 1]`.
    pub bucket_size_pct_valid: bool,
    pub retention_secs: u64,
    pub render_real: bool,
    pub render_estimated: bool,
    pub render_hl_caveat: bool,
}

fn default_heatmap_enabled() -> (b: bool)
    ensures
        b,
{
    true
}

fn default_heatmap_retention_secs() -> (n: u64)
    ensures
        n == 86_400,
{
    86_400
}

impl HeatmapConfig {
    /// The settings of the default value.
    pub open spec fn is_default(self) -> bool {
        &&& self.enabled
        &&& self.bucket_size_pct_valid
        &&& self.retention_secs == 86_400
        &&& self.render_real
        &&& self.render_estimated
        &&& self.render_hl_caveat
    }
}

impl Default for HeatmapConfig {
    /// Defaults: enabled, 0.1 % buckets, 24 h retention, all layers shown.
    fn default() -> (c: Self)
        ensures
            c.is_default(),
    {
        HeatmapConfig {
            enabled: default_heatmap_enabled(),
            bucket_size_pct_valid: true,
            retention_secs: default_heatmap_retention_secs(),
            render_real: true,
            render_estimated: true,
            render_hl_caveat: true,
        }
    }
}

// ---------------------------------------------------------------------
// Data quality
// ---------------------------------------------------------------------

/// The median price filter and candle staleness.
#[derive(Debug, Clone, Copy, PartialEq, Eq)]
pub struct QualityConfig {
    pub median_window_size: usize,
    pub bypass_on_zero_median: bool,
    pub staleness_threshold_secs: u64,
}

fn default_median_window_size() -> (n: usize)
    ensures
        n == 20,
{
    20
}

fn default_bypass_on_zero_median() -> (b: bool)
    ensures
        b,
{
    true
}

fn default_staleness_threshold_secs() -> (n: u64)
    ensures
        n == 600,
{
    600
}

impl QualityConfig {
    /// The settings of the default value.
    pub open spec fn is_default(self) -> bool {
        &&& self.median_window_size == 20
        &&& self.bypass_on_zero_median
        &&& self.staleness_threshold_secs == 600
    }
}

impl Default for QualityConfig {
    fn default() -> (c: Self)
        ensures
            c.is_default(),
    {
        QualityConfig {
            median_window_size: default_median_window_size(),
            bypass_on_zero_median: default_bypass_on_zero_median(),
            staleness_threshold_secs: default_staleness_threshold_secs(),
        }
    }
}

// ---------------------------------------------------------------------
// Analytics and risk limits
// ---------------------------------------------------------------------

/// Edge-significance treatment.
#[derive(Debug, Clone, Copy, PartialEq, Eq)]
pub struct AnalyticsConfig {
    /// The significance level is finite and lies in `(0, 1]`.
    pub alpha_valid: bool,
    pub monte_carlo_runs: u32,
    pub min_trades_for_verdict: u32,
}

fn default_analytics_monte_carlo_runs() -> (n: u32)
    ensures
        n == 10_000,
{
    10_000
}

fn default_analytics_min_trades() -> (n: u32)
    ensures
        n == 30,
{
    30
}

impl AnalyticsConfig {
    /// The settings of the default value.
    pub open spec fn is_default(self) -> bool {
        &&& self.alpha_valid
        &&& self.monte_carlo_runs == 10_000
        &&& self.min_trades_for_verdict == 30
    }
}

impl Default for AnalyticsConfig {
    /// Defaults: significance level 0.05, 10 000 runs, 30 trades.
    fn default() -> (c: Self)
        ensures
            c.is_default(),
    {
        AnalyticsConfig {
            alpha_valid: true,
            monte_carlo_runs: default_analytics_monte_carlo_runs(),
            min_trades_for_verdict: default_analytics_min_trades(),
        }
    }
}

/// Verdicts of the portfolio risk-limit guards.
#[derive(Debug, Clone, Copy, PartialEq, Eq)]
pub struct RiskLimitsConfig {
    /// The single-pair exposure cap is finite and lies in `(0, 100]`.
    pub max_single_pair_exposure_pct_valid: bool,
    /// The portfolio exposure cap is finite and lies in `(0, 100]`.
    pub max_portfolio_exposure_pct_valid: bool,
    /// The correlation cap lies in `(0, 1]`.
    pub max_correlation_valid: bool,
}

impl RiskLimitsConfig {
    /// The settings of the default value.
    pub open spec fn is_default(self) -> bool {
        &&& self.max_single_pair_exposure_pct_valid
        &&& self.max_portfolio_exposure_pct_valid
        &&& self.max_correlation_valid
    }
}

impl Default for RiskLimitsConfig {
    /// Defaults: 20 % single pair, 50 % portfolio, correlation 0.8.
    fn default() -> (c: Self)
        ensures
            c.is_default(),
    {
        RiskLimitsConfig {
            max_single_pair_exposure_pct_valid: true,
            max_portfolio_exposure_pct_valid: true,
            max_correlation_valid: true,
        }
    }
}

// ---------------------------------------------------------------------
// Minimal trade executor
// ---------------------------------------------------------------------

/// The setup executor.
#[derive(Debug, Clone, PartialEq, Eq)]
pub struct MinimalTaeConfig {
    pub enabled: bool,
    /// The allocation percentage is finite and lies in `1..=100`.
    pub allocation_pct_valid: bool,
    pub max_open_positions: u32,
    pub entry_mode: String,
    pub invalidate_on: String,
}

fn default_max_open_positions() -> (n: u32)
    ensures
        n == 10,
{
    10
}

fn default_entry_mode() -> (s: String)
    ensures
        s@ == "zone_midpoint"@,
{
    String::from_str("zone_midpoint")
}

fn default_invalidate_on() -> (s: String)
    ensures
        s@ == "direction_flip"@,
{
    String::from_str("direction_flip")
}

impl MinimalTaeConfig {
    /// The settings of the default value.
    pub open spec fn is_default(self) -> bool {
        &&& !self.enabled
        &&& self.allocation_pct_valid
        &&& self.max_open_positions == 10
        &&& self.entry_mode@ == "zone_midpoint"@
        &&& self.invalidate_on@ == "direction_flip"@
    }
}

impl Default for MinimalTaeConfig {
    /// Defaults: disabled, 10 % allocation, ten open positions.
    fn default() -> (c: Self)
        ensures
            c.is_default(),
    {
        MinimalTaeConfig {
            enabled: false,
            allocation_pct_valid: true,
            max_open_positions: default_max_open_positions(),
            entry_mode: default_entry_mode(),
            invalidate_on: default_invalidate_on(),
        }
    }
}

} // verus!
