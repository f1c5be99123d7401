//! The workspace: one portfolio, its market-monitor defaults, strategies
//! and trading-pair instances, and the numeric guards it must pass before
//! the runtime accepts it.
use vstd::prelude::*;
use vstd::string::*;
use crate::durations::{
    default_timeframes, default_timeframes_seq, heal_ladder, active_ladder, is_pool_label,
    is_supported, is_supported_duration, pool_label_match, pool_seq, strictly_ascending,
    supported_durations_vec, lemma_pool_shape,
};
use crate::indicators::{IndicatorCheck, IndicatorsConfig, indicator_check_failure, validate_indicators_config};
use crate::models::{
    ActivationConfig, ApiFailoverConfig, AutomationConfig, BacktestConfig, CandlesConfig,
    DefaultsConfig, FastTimeframeConfig, IntervalsConfig, LeverageConfig, OperationalMode,
    SlowTimeframeConfig,
};
use crate::sections::{
    AnalyticsConfig, FibonacciConfig, HeatmapConfig, LiquidityConfig, MinimalTaeConfig,
    OpportunityMatrixConfig, OrderBookConfig, PivotsConfig, RiskLimitsConfig, SafetyConfig,
    TfLeverageConfig,
};
use crate::strategy::{
    ChainLink, LadderRole, ResolveError, ResolveFailure, StrategyConfig, find_named, finished_copy,
    first_named_from, resolve_chain, resolve_spec, same_settings, walk,
};

verus! {

// ---------------------------------------------------------------------
// Instances
// ---------------------------------------------------------------------

/// Runtime status of a trading-pair instance.
#[derive(Debug, Clone, Copy, PartialEq, Eq)]
pub enum InstanceStatus {
    Running,
    Paused,
    Stopped,
}

impl InstanceStatus {
    /// The settings of the default value.
    pub open spec fn is_default(self) -> bool {
        &&& self == InstanceStatus::Running
    }
}

impl Default for InstanceStatus {
    fn default() -> (s: Self)
        ensures
            s.is_default(),
    {
        InstanceStatus::Running
    }
}

/// Execution mode: `Observe` never dispatches orders, `Paper` simulates
/// fills, `Live` routes to the exchange. Accounting is the same in `Paper`
/// and `Live`.
#[derive(Debug, Clone, Copy, PartialEq, Eq)]
pub enum ExecutionMode {
    Observe,
    Paper,
    Live,
}

impl ExecutionMode {
    /// The settings of the default value.
    pub open spec fn is_default(self) -> bool {
        &&& self == ExecutionMode::Paper
    }
}

impl Default for ExecutionMode {
    fn default() -> (m: Self)
        ensures
            m.is_default(),
    {
        ExecutionMode::Paper
    }
}

/// The complete configuration of one duration: its candles, indicators and
/// leverage distribution.
#[derive(Debug, Clone, PartialEq, Eq)]
pub struct TimeframeConfig {
    pub candles: CandlesConfig,
    pub indicators: IndicatorsConfig,
    pub leverage: TfLeverageConfig,
}

impl TimeframeConfig {
    /// A timeframe of `duration_seconds` with the given indicators and the
    /// default leverage distribution.
    pub fn new(duration_seconds: u64, indicators: IndicatorsConfig) -> (t: Self)
        ensures
            t.candles.duration_seconds == duration_seconds,
            t.indicators == indicators,
            t.leverage.is_default(),
    {
        TimeframeConfig {
            candles: CandlesConfig { duration_seconds },
            indicators,
            leverage: TfLeverageConfig::default(),
        }
    }
}

impl TimeframeConfig {
    /// The settings of the default value.
    pub open spec fn is_default(self) -> bool {
        &&& self.candles.duration_seconds == 1
        &&& self.indicators.is_default()
        &&& self.leverage.is_default()
    }
}

impl Default for TimeframeConfig {
    /// A placeholder bound to the fastest duration.
    fn default() -> (t: Self)
        ensures
            t.is_default(),
    {
        TimeframeConfig::new(1, IndicatorsConfig::default())
    }
}

/// One trading-pair instance of the workspace.
#[derive(Debug, Clone, PartialEq, Eq)]
pub struct InstanceEntry {
    pub id: String,
    pub symbol: String,
    pub quote: String,
    pub status: InstanceStatus,
    /// Per-duration overrides, keyed by duration in seconds, in ascending
    /// key order. Each replaces the profile of its duration.
    pub timeframes: Vec<(u64, TimeframeConfig)>,
    pub automation: AutomationConfig,
    pub operational_mode: OperationalMode,
    pub mode: ExecutionMode,
    /// The bound strategy; `None` binds the workspace default.
    pub strategy: Option<String>,
    pub activation: Option<ActivationConfig>,
}

// ---------------------------------------------------------------------
// Server and data-science export
// ---------------------------------------------------------------------

/// The dashboard's HTTP server.
#[derive(Debug, Clone, PartialEq, Eq)]
pub struct ServerConfig {
    pub bind: String,
    pub port: u16,
    /// Step to the next free port when the configured one is taken.
    pub auto_fallback: bool,
    /// How many consecutive ports to probe.
    pub port_fallback_range: u16,
}

impl ServerConfig {
    /// The settings of the default value.
    pub open spec fn is_default(self) -> bool {
        &&& self.bind@ == "127.0.0.1"@
        &&& self.port == 3000
        &&& self.auto_fallback
        &&& self.port_fallback_range == 20
    }
}

impl Default for ServerConfig {
    /// Loopback `127.0.0.1:3000`, with fallback over 20 ports.
    fn default() -> (c: Self)
        ensures
            c.is_default(),
    {
        ServerConfig {
            bind: String::from_str("127.0.0.1"),
            port: 3000,
            auto_fallback: true,
            port_fallback_range: 20,
        }
    }
}

/// The data-science export tree.
#[derive(Debug, Clone, PartialEq, Eq)]
pub struct DataScienceConfig {
    pub enabled: bool,
    pub output_path: String,
    pub capture_market: bool,
    pub capture_trading: bool,
    pub capture_analytics: bool,
    pub flush_interval_secs: u64,
}

impl DataScienceConfig {
    /// The settings of the default value.
    pub open spec fn is_default(self) -> bool {
        &&& self.enabled
        &&& self.output_path@ == "./ds"@
        &&& self.capture_market
        &&& self.capture_trading
        &&& self.capture_analytics
        &&& self.flush_interval_secs == 5
    }
}

impl Default for DataScienceConfig {
    fn default() -> (c: Self)
        ensures
            c.is_default(),
    {
        DataScienceConfig {
            enabled: true,
            output_path: String::from_str("./ds"),
            capture_market: true,
            capture_trading: true,
            capture_analytics: true,
            flush_interval_secs: 5,
        }
    }
}

// ---------------------------------------------------------------------
// The workspace
// ---------------------------------------------------------------------

/// One workspace: the portfolio, its monitor defaults, strategies and
/// instances.
#[derive(Debug, Clone, PartialEq, Eq)]
pub struct WorkspaceConfig {
    pub id: String,
    pub name: String,
    pub default_currency: String,
    pub default_exchange: String,
    pub candles: CandlesConfig,
    /// The active timeframe set: durations of the supported pool.
    pub timeframes: Vec<u64>,
    pub indicators: IndicatorsConfig,
    pub fast_timeframe: FastTimeframeConfig,
    pub slow_timeframe: SlowTimeframeConfig,
    pub macro_timeframe: SlowTimeframeConfig,
    pub fibonacci: FibonacciConfig,
    pub pivots: PivotsConfig,
    pub safety: SafetyConfig,
    pub intervals: IntervalsConfig,
    pub liquidity: LiquidityConfig,
    pub heatmap: HeatmapConfig,
    pub api_failover: ApiFailoverConfig,
    pub activation: ActivationConfig,
    pub opportunity_matrix: OpportunityMatrixConfig,
    pub order_book: OrderBookConfig,
    pub config_version: u64,
    pub leverage: LeverageConfig,
    pub defaults: DefaultsConfig,
    pub instances: Vec<InstanceEntry>,
    pub minimal_tae: MinimalTaeConfig,
    pub analytics: AnalyticsConfig,
    pub risk_limits: RiskLimitsConfig,
    pub backtest: BacktestConfig,
    pub strategies: Vec<StrategyConfig>,
    pub data_science: DataScienceConfig,
    /// The instance allocations (each instance's own, or the executor's
    /// default) sum to at most 100 % of equity.
    pub allocation_sum_valid: bool,
}

impl WorkspaceConfig {
    /// The settings of the default value.
    pub open spec fn is_default(self) -> bool {
        &&& self.id@ == "main"@
        &&& self.name@ == "Default Workspace"@
        &&& self.default_currency@ == "USDC"@
        &&& self.default_exchange@ == "Hyperliquid"@
        &&& self.candles.is_default()
        &&& self.timeframes@ == default_timeframes_seq()
        &&& self.indicators.is_default()
        &&& self.fast_timeframe.is_default()
        &&& self.slow_timeframe.is_default()
        &&& self.macro_timeframe.is_default()
        &&& self.fibonacci.is_default()
        &&& self.pivots.is_default()
        &&& self.safety.is_default()
        &&& self.intervals.is_default()
        &&& self.liquidity.is_default()
        &&& self.heatmap.is_default()
        &&& self.api_failover.is_default()
        &&& self.activation.is_default()
        &&& self.opportunity_matrix.is_default()
        &&& self.order_book.is_default()
        &&& self.config_version == 1
        &&& self.leverage.is_default()
        &&& self.defaults.is_default()
        &&& self.instances@.len() == 0
        &&& self.minimal_tae.is_default()
        &&& self.analytics.is_default()
        &&& self.risk_limits.is_default()
        &&& self.backtest.is_default()
        &&& self.strategies@.len() == 1
        &&& self.strategies@[0].is_default()
        &&& self.data_science.is_default()
        &&& self.allocation_sum_valid
    }
}

impl Default for WorkspaceConfig {
    /// The `main` workspace: no instances, the default ladder and the
    /// built-in `default` strategy.
    fn default() -> (ws: Self)
        ensures
            ws.is_default(),
            indicator_check_failure(ws.indicators) is None,
            workspace_failure(ws) is None,
    {
        let indicators = IndicatorsConfig::default();
        proof {
            crate::indicators::lemma_default_indicators_pass(indicators);
            lemma_default_ladder_valid();
        }
        let mut strategies: Vec<StrategyConfig> = Vec::new();
        strategies.push(StrategyConfig::default());
        let ws = WorkspaceConfig {
            id: String::from_str("main"),
            name: String::from_str("Default Workspace"),
            default_currency: String::from_str("USDC"),
            default_exchange: String::from_str("Hyperliquid"),
            candles: CandlesConfig::default(),
            timeframes: default_timeframes(),
            indicators,
            fast_timeframe: FastTimeframeConfig::default(),
            slow_timeframe: SlowTimeframeConfig::default(),
            macro_timeframe: SlowTimeframeConfig::default(),
            fibonacci: FibonacciConfig::default(),
            pivots: PivotsConfig::default(),
            safety: SafetyConfig::default(),
            intervals: IntervalsConfig::default(),
            liquidity: LiquidityConfig::default(),
            heatmap: HeatmapConfig::default(),
            api_failover: ApiFailoverConfig::default(),
            activation: ActivationConfig::default(),
            opportunity_matrix: OpportunityMatrixConfig::default(),
            order_book: OrderBookConfig::default(),
            config_version: 1,
            leverage: LeverageConfig::default(),
            defaults: DefaultsConfig::default(),
            instances: Vec::new(),
            minimal_tae: MinimalTaeConfig::default(),
            analytics: AnalyticsConfig::default(),
            risk_limits: RiskLimitsConfig::default(),
            backtest: BacktestConfig::default(),
            strategies,
            data_science: DataScienceConfig::default(),
            allocation_sum_valid: true,
        };
        proof {
            assert(ladder_failure(ws.strategies@, 1) is None);
            assert(ladder_failure(ws.strategies@, 0) is None);
            assert(instances_failure(ws.instances@, 0) is None);
        }
        ws
    }
}

// ---------------------------------------------------------------------
// Errors
// ---------------------------------------------------------------------

/// The backtest paging limits of one exchange.
#[derive(Debug, Clone, Copy, PartialEq, Eq)]
pub enum BacktestExchange {
    Hyperliquid,
    Bitget,
}

/// A numeric guard that a configuration fails.
#[derive(Debug, Clone, PartialEq, Eq)]
pub enum NumericGuard {
    /// `[workspace.analytics].alpha` outside `(0, 1]`.
    AnalyticsAlpha,
    /// `[workspace.analytics].monte_carlo_runs` below 1000.
    MonteCarloRuns,
    /// `[workspace.analytics].min_trades_for_verdict` below 10.
    MinTradesForVerdict,
    /// `[workspace.minimal_tae].allocation_pct` outside `1..=100`.
    AllocationPct,
    /// `[workspace.minimal_tae].max_open_positions` outside `1..=100`.
    MaxOpenPositions,
    /// More than 100 instances.
    InstanceCount,
    /// The instance allocations sum to more than 100 %.
    AllocationSum,
    /// `[workspace.backtest].hyperliquid.max_candles_per_tf` above 100 000.
    MaxCandlesPerTf,
    /// `[workspace.backtest].archive_depth_days` outside `1..=365`.
    ArchiveDepthDays,
    /// `[workspace.backtest].warmup_bars` below 30.
    WarmupBars,
    /// `[workspace.backtest].max_equity_points` below 10.
    MaxEquityPoints,
    /// An exchange's `page_cap` is zero.
    PageCap(BacktestExchange),
    /// An exchange's `max_pages_per_run` is zero.
    MaxPagesPerRun(BacktestExchange),
    /// `[workspace.risk_limits].max_single_pair_exposure_pct` outside `(0, 100]`.
    SinglePairExposure,
    /// `[workspace.risk_limits].max_portfolio_exposure_pct` outside `(0, 100]`.
    PortfolioExposure,
    /// `[workspace.risk_limits].max_correlation` outside `(0, 1]`.
    MaxCorrelation,
    /// A `[workspace].timeframes` entry outside the supported pool.
    TimeframeNotSupported(u64),
    /// A `[workspace].timeframes` entry listed twice.
    TimeframeDuplicate(u64),
    /// `[workspace].timeframes` has no entries or more than the pool.
    TimeframeCount(usize),
    /// An instance override keyed by a duration outside the pool.
    InstanceTimeframeNotSupported { symbol: String, secs: u64 },
    /// An instance override whose candle duration differs from its key.
    InstanceTimeframeMismatch { symbol: String, secs: u64, declared: u64 },
    /// An instance override whose indicators fail a guard.
    InstanceIndicators { symbol: String, secs: u64, check: IndicatorCheck },
    /// A strategy's ladder role that is not a pool duration label.
    LadderRoleLabel { strategy: String, role: LadderRole },
    /// The workspace indicator defaults fail a guard.
    WorkspaceIndicators(IndicatorCheck),
    /// `[workspace.liquidity].maintenance_margin_rate` outside `(0, 1]`.
    MaintenanceMarginRate,
    /// `[workspace.liquidity].bucket_retention_days` is zero.
    BucketRetentionDays,
    /// `[workspace.liquidity].min_cluster_notional_usd` negative or not finite.
    MinClusterNotional,
    /// `[workspace.heatmap].bucket_size_pct` outside `(0, 1]`.
    HeatmapBucketSize,
    /// `[workspace.heatmap].retention_secs` is zero.
    HeatmapRetention,
    /// `[quality].median_window_size` is zero.
    QualityMedianWindow,
    /// `[platform.server].port` is zero.
    ServerPort,
    /// `[platform.server].bind` is blank.
    ServerBindEmpty,
    /// `[platform.server].bind` is not a loopback address.
    ServerBindNotLoopback,
    /// `[candle_buffer].size` is zero.
    CandleBufferSize,
}

/// A configuration the platform refuses to load.
#[derive(Debug, Clone, PartialEq, Eq)]
pub enum ConfigError {
    /// A retired configuration file is present.
    LegacyFile { path: String },
    /// The `[workspace]` table is missing.
    WorkspaceMissing,
    /// A retired timeframe key is present.
    LegacyTimeframeKey { key: String },
    /// A numeric guard fails.
    InvalidNumeric { guard: NumericGuard },
}

/// `Ok` when no guard fails, otherwise the first failing guard.
pub open spec fn guard_result(g: Option<NumericGuard>) -> Result<(), ConfigError> {
    match g {
        Some(guard) => Err(ConfigError::InvalidNumeric { guard }),
        None => Ok(()),
    }
}

// ---------------------------------------------------------------------
// Workspace validation
// ---------------------------------------------------------------------

/// The analytics, allocation, backtest and risk-limit guards, in order.
pub open spec fn scalar_guard_failure(ws: WorkspaceConfig) -> Option<NumericGuard> {
    if !ws.analytics.alpha_valid {
        Some(NumericGuard::AnalyticsAlpha)
    } else if ws.analytics.monte_carlo_runs < 1000 {
        Some(NumericGuard::MonteCarloRuns)
    } else if ws.analytics.min_trades_for_verdict < 10 {
        Some(NumericGuard::MinTradesForVerdict)
    } else if !ws.minimal_tae.allocation_pct_valid {
        Some(NumericGuard::AllocationPct)
    } else if !(1 <= ws.minimal_tae.max_open_positions <= 100) {
        Some(NumericGuard::MaxOpenPositions)
    } else if ws.instances@.len() > 100 {
        Some(NumericGuard::InstanceCount)
    } else if !ws.allocation_sum_valid {
        Some(NumericGuard::AllocationSum)
    } else if ws.backtest.hyperliquid.max_candles_per_tf > 100_000 {
        Some(NumericGuard::MaxCandlesPerTf)
    } else if !(1 <= ws.backtest.archive_depth_days <= 365) {
        Some(NumericGuard::ArchiveDepthDays)
    } else if ws.backtest.warmup_bars < 30 {
        Some(NumericGuard::WarmupBars)
    } else if ws.backtest.max_equity_points < 10 {
        Some(NumericGuard::MaxEquityPoints)
    } else if ws.backtest.hyperliquid.page_cap == 0 {
        Some(NumericGuard::PageCap(BacktestExchange::Hyperliquid))
    } else if ws.backtest.hyperliquid.max_pages_per_run == 0 {
        Some(NumericGuard::MaxPagesPerRun(BacktestExchange::Hyperliquid))
    } else if ws.backtest.bitget.page_cap == 0 {
        Some(NumericGuard::PageCap(BacktestExchange::Bitget))
    } else if ws.backtest.bitget.max_pages_per_run == 0 {
        Some(NumericGuard::MaxPagesPerRun(BacktestExchange::Bitget))
    } else if !ws.risk_limits.max_single_pair_exposure_pct_valid {
        Some(NumericGuard::SinglePairExposure)
    } else if !ws.risk_limits.max_portfolio_exposure_pct_valid {
        Some(NumericGuard::PortfolioExposure)
    } else if !ws.risk_limits.max_correlation_valid {
        Some(NumericGuard::MaxCorrelation)
    } else {
        None
    }
}

fn scalar_guards(ws: &WorkspaceConfig) -> (r: Result<(), ConfigError>)
    ensures
        r == guard_result(scalar_guard_failure(*ws)),
{
    let g = if !ws.analytics.alpha_valid {
        Some(NumericGuard::AnalyticsAlpha)
    } else if ws.analytics.monte_carlo_runs < 1000 {
        Some(NumericGuard::MonteCarloRuns)
    } else if ws.analytics.min_trades_for_verdict < 10 {
        Some(NumericGuard::MinTradesForVerdict)
    } else if !ws.minimal_tae.allocation_pct_valid {
        Some(NumericGuard::AllocationPct)
    } else if !(1 <= ws.minimal_tae.max_open_positions && ws.minimal_tae.max_open_positions <= 100) {
        Some(NumericGuard::MaxOpenPositions)
    } else if ws.instances.len() > 100 {
        Some(NumericGuard::InstanceCount)
    } else if !ws.allocation_sum_valid {
        Some(NumericGuard::AllocationSum)
    } else if ws.backtest.hyperliquid.max_candles_per_tf > 100_000 {
        Some(NumericGuard::MaxCandlesPerTf)
    } else if !(1 <= ws.backtest.archive_depth_days && ws.backtest.archive_depth_days <= 365) {
        Some(NumericGuard::ArchiveDepthDays)
    } else if ws.backtest.warmup_bars < 30 {
        Some(NumericGuard::WarmupBars)
    } else if ws.backtest.max_equity_points < 10 {
        Some(NumericGuard::MaxEquityPoints)
    } else if ws.backtest.hyperliquid.page_cap == 0 {
        Some(NumericGuard::PageCap(BacktestExchange::Hyperliquid))
    } else if ws.backtest.hyperliquid.max_pages_per_run == 0 {
        Some(NumericGuard::MaxPagesPerRun(BacktestExchange::Hyperliquid))
    } else if ws.backtest.bitget.page_cap == 0 {
        Some(NumericGuard::PageCap(BacktestExchange::Bitget))
    } else if ws.backtest.bitget.max_pages_per_run == 0 {
        Some(NumericGuard::MaxPagesPerRun(BacktestExchange::Bitget))
    } else if !ws.risk_limits.max_single_pair_exposure_pct_valid {
        Some(NumericGuard::SinglePairExposure)
    } else if !ws.risk_limits.max_portfolio_exposure_pct_valid {
        Some(NumericGuard::PortfolioExposure)
    } else if !ws.risk_limits.max_correlation_valid {
        Some(NumericGuard::MaxCorrelation)
    } else {
        None
    };
    match g {
        Some(guard) => Err(ConfigError::InvalidNumeric { guard }),
        None => Ok(()),
    }
}

/// The first entry of the active set, at position `i` or later, that is
/// outside the pool or repeats an earlier entry.
pub open spec fn first_bad_timeframe(set: Seq<u64>, i: int) -> Option<NumericGuard>
    decreases set.len() - i,
{
    if i < 0 || i >= set.len() {
        None
    } else if !is_supported(set[i]) {
        Some(NumericGuard::TimeframeNotSupported(set[i]))
    } else if set.take(i).contains(set[i]) {
        Some(NumericGuard::TimeframeDuplicate(set[i]))
    } else {
        first_bad_timeframe(set, i + 1)
    }
}

/// The active set must hold 1 to 14 distinct pool durations.
pub open spec fn timeframe_set_failure(set: Seq<u64>) -> Option<NumericGuard> {
    match first_bad_timeframe(set, 0) {
        Some(g) => Some(g),
        None => if set.len() == 0 || set.len() > 14 {
            Some(NumericGuard::TimeframeCount(set.len() as usize))
        } else {
            None
        },
    }
}

fn check_timeframe_set(set: &Vec<u64>) -> (r: Result<(), ConfigError>)
    ensures
        r == guard_result(timeframe_set_failure(set@)),
{
    let mut i: usize = 0;
    while i < set.len()
        invariant
            i <= set@.len(),
            first_bad_timeframe(set@, 0) == first_bad_timeframe(set@, i as int),
        decreases set.len() - i,
    {
        let secs = set[i];
        if !is_supported_duration(secs) {
            return Err(ConfigError::InvalidNumeric { guard: NumericGuard::TimeframeNotSupported(secs) });
        }
        let mut j: usize = 0;
        let mut seen = false;
        while j < i
            invariant
                j <= i < set@.len(),
                seen == set@.take(j as int).contains(secs),
                secs == set@[i as int],
            decreases i - j,
        {
            proof {
                let before = set@.take(j as int);
                let after = set@.take(j + 1);
                assert(after =~= before.push(set@[j as int]));
                assert(after[j as int] == set@[j as int]);
                if before.contains(secs) {
                    let k = choose|k: int| 0 <= k < before.len() && before[k] == secs;
                    assert(after[k] == secs);
                }
                if after.contains(secs) && set@[j as int] != secs {
                    let k = choose|k: int| 0 <= k < after.len() && after[k] == secs;
                    assert(before[k] == secs);
                }
            }
            if set[j] == secs {
                seen = true;
            }
            j = j + 1;
        }
        if seen {
            return Err(ConfigError::InvalidNumeric { guard: NumericGuard::TimeframeDuplicate(secs) });
        }
        i = i + 1;
    }
    if set.len() == 0 || set.len() > 14 {
        return Err(ConfigError::InvalidNumeric { guard: NumericGuard::TimeframeCount(set.len()) });
    }
    Ok(())
}

/// The first failing override of an instance, at position `j` or later:
/// a key outside the pool, a candle duration that differs from its key, or
/// indicators that fail a guard.
pub open spec fn override_failure(symbol: String, tfs: Seq<(u64, TimeframeConfig)>, j: int) -> Option<
    NumericGuard,
>
    decreases tfs.len() - j,
{
    if j < 0 || j >= tfs.len() {
        None
    } else {
        let (secs, tf) = tfs[j];
        if !is_supported(secs) {
            Some(NumericGuard::InstanceTimeframeNotSupported { symbol, secs })
        } else if tf.candles.duration_seconds != secs {
            Some(
                NumericGuard::InstanceTimeframeMismatch { symbol, secs, declared: tf.candles.duration_seconds },
            )
        } else {
            match indicator_check_failure(tf.indicators) {
                Some(check) => Some(NumericGuard::InstanceIndicators { symbol, secs, check }),
                None => override_failure(symbol, tfs, j + 1),
            }
        }
    }
}

/// The first failing override over the instances from position `i` on.
pub open spec fn instances_failure(insts: Seq<InstanceEntry>, i: int) -> Option<NumericGuard>
    decreases insts.len() - i,
{
    if i < 0 || i >= insts.len() {
        None
    } else {
        match override_failure(insts[i].symbol, insts[i].timeframes@, 0) {
            Some(g) => Some(g),
            None => instances_failure(insts, i + 1),
        }
    }
}

fn check_overrides(inst: &InstanceEntry) -> (r: Result<(), ConfigError>)
    ensures
        r == guard_result(override_failure(inst.symbol, inst.timeframes@, 0)),
{
    let mut j: usize = 0;
    while j < inst.timeframes.len()
        invariant
            j <= inst.timeframes@.len(),
            override_failure(inst.symbol, inst.timeframes@, 0) == override_failure(
                inst.symbol,
                inst.timeframes@,
                j as int,
            ),
        decreases inst.timeframes.len() - j,
    {
        let secs = inst.timeframes[j].0;
        let tf = &inst.timeframes[j].1;
        if !is_supported_duration(secs) {
            return Err(
                ConfigError::InvalidNumeric {
                    guard: NumericGuard::InstanceTimeframeNotSupported { symbol: inst.symbol.clone(), secs },
                },
            );
        }
        if tf.candles.duration_seconds != secs {
            return Err(
                ConfigError::InvalidNumeric {
                    guard: NumericGuard::InstanceTimeframeMismatch {
                        symbol: inst.symbol.clone(),
                        secs,
                        declared: tf.candles.duration_seconds,
                    },
                },
            );
        }
        match validate_indicators_config(&tf.indicators) {
            Err(check) => {
                return Err(
                    ConfigError::InvalidNumeric {
                        guard: NumericGuard::InstanceIndicators { symbol: inst.symbol.clone(), secs, check },
                    },
                );
            },
            Ok(()) => {},
        }
        j = j + 1;
    }
    Ok(())
}

fn check_instances(insts: &Vec<InstanceEntry>) -> (r: Result<(), ConfigError>)
    ensures
        r == guard_result(instances_failure(insts@, 0)),
{
    let mut i: usize = 0;
    while i < insts.len()
        invariant
            i <= insts@.len(),
            instances_failure(insts@, 0) == instances_failure(insts@, i as int),
        decreases insts.len() - i,
    {
        match check_overrides(&insts[i]) {
            Err(e) => {
                return Err(e);
            },
            Ok(()) => {},
        }
        i = i + 1;
    }
    Ok(())
}

/// The first role of a strategy whose label is not a pool duration label,
/// in the order decision, entry, stop, target; only checked when role
/// separation is enabled.
pub open spec fn ladder_role_failure(s: StrategyConfig) -> Option<LadderRole> {
    if !s.ladder_roles.enabled {
        None
    } else if pool_label_match(s.ladder_roles.decision_tf@, 0) is None {
        Some(LadderRole::DecisionTf)
    } else if pool_label_match(s.ladder_roles.entry_tf@, 0) is None {
        Some(LadderRole::EntryTf)
    } else if pool_label_match(s.ladder_roles.stop_tf@, 0) is None {
        Some(LadderRole::StopTf)
    } else if pool_label_match(s.ladder_roles.target_tf@, 0) is None {
        Some(LadderRole::TargetTf)
    } else {
        None
    }
}

/// The first failing ladder role over the strategies from position `i` on.
pub open spec fn ladder_failure(strats: Seq<StrategyConfig>, i: int) -> Option<NumericGuard>
    decreases strats.len() - i,
{
    if i < 0 || i >= strats.len() {
        None
    } else {
        match ladder_role_failure(strats[i]) {
            Some(role) => Some(NumericGuard::LadderRoleLabel { strategy: strats[i].name, role }),
            None => ladder_failure(strats, i + 1),
        }
    }
}

fn ladder_role_check(s: &StrategyConfig) -> (r: Option<LadderRole>)
    ensures
        r == ladder_role_failure(*s),
{
    if !s.ladder_roles.enabled {
        None
    } else if !is_pool_label(s.ladder_roles.decision_tf.as_str()) {
        Some(LadderRole::DecisionTf)
    } else if !is_pool_label(s.ladder_roles.entry_tf.as_str()) {
        Some(LadderRole::EntryTf)
    } else if !is_pool_label(s.ladder_roles.stop_tf.as_str()) {
        Some(LadderRole::StopTf)
    } else if !is_pool_label(s.ladder_roles.target_tf.as_str()) {
        Some(LadderRole::TargetTf)
    } else {
        None
    }
}

fn check_ladder_roles(strats: &Vec<StrategyConfig>) -> (r: Result<(), ConfigError>)
    ensures
        r == guard_result(ladder_failure(strats@, 0)),
{
    let mut i: usize = 0;
    while i < strats.len()
        invariant
            i <= strats@.len(),
            ladder_failure(strats@, 0) == ladder_failure(strats@, i as int),
        decreases strats.len() - i,
    {
        match ladder_role_check(&strats[i]) {
            Some(role) => {
                return Err(
                    ConfigError::InvalidNumeric {
                        guard: NumericGuard::LadderRoleLabel { strategy: strats[i].name.clone(), role },
                    },
                );
            },
            None => {},
        }
        i = i + 1;
    }
    Ok(())
}

/// The liquidity and heatmap guards, in order.
pub open spec fn market_guard_failure(ws: WorkspaceConfig) -> Option<NumericGuard> {
    if !ws.liquidity.maintenance_margin_rate_valid {
        Some(NumericGuard::MaintenanceMarginRate)
    } else if ws.liquidity.bucket_retention_days == 0 {
        Some(NumericGuard::BucketRetentionDays)
    } else if !ws.liquidity.min_cluster_notional_usd_valid {
        Some(NumericGuard::MinClusterNotional)
    } else if !ws.heatmap.bucket_size_pct_valid {
        Some(NumericGuard::HeatmapBucketSize)
    } else if ws.heatmap.retention_secs == 0 {
        Some(NumericGuard::HeatmapRetention)
    } else {
        None
    }
}

/// The first guard a workspace fails: the scalar guards, the active
/// timeframe set, the instance overrides, the strategies' ladder roles,
/// the workspace indicator defaults, then liquidity and heatmap.
pub open spec fn workspace_failure(ws: WorkspaceConfig) -> Option<NumericGuard> {
    match scalar_guard_failure(ws) {
        Some(g) => Some(g),
        None => match timeframe_set_failure(ws.timeframes@) {
            Some(g) => Some(g),
            None => match instances_failure(ws.instances@, 0) {
                Some(g) => Some(g),
                None => match ladder_failure(ws.strategies@, 0) {
                    Some(g) => Some(g),
                    None => match indicator_check_failure(ws.indicators) {
                        Some(c) => Some(NumericGuard::WorkspaceIndicators(c)),
                        None => market_guard_failure(ws),
                    },
                },
            },
        },
    }
}

/// Fail-fast validation of a workspace: `Ok` exactly when every guard
/// holds, otherwise the first failing guard.
pub fn validate_workspace(ws: &WorkspaceConfig) -> (r: Result<(), ConfigError>)
    ensures
        r == guard_result(workspace_failure(*ws)),
{
    match scalar_guards(ws) {
        Err(e) => {
            return Err(e);
        },
        Ok(()) => {},
    }
    match check_timeframe_set(&ws.timeframes) {
        Err(e) => {
            return Err(e);
        },
        Ok(()) => {},
    }
    match check_instances(&ws.instances) {
        Err(e) => {
            return Err(e);
        },
        Ok(()) => {},
    }
    match check_ladder_roles(&ws.strategies) {
        Err(e) => {
            return Err(e);
        },
        Ok(()) => {},
    }
    match validate_indicators_config(&ws.indicators) {
        Err(c) => {
            return Err(ConfigError::InvalidNumeric { guard: NumericGuard::WorkspaceIndicators(c) });
        },
        Ok(()) => {},
    }
    let g = if !ws.liquidity.maintenance_margin_rate_valid {
        Some(NumericGuard::MaintenanceMarginRate)
    } else if ws.liquidity.bucket_retention_days == 0 {
        Some(NumericGuard::BucketRetentionDays)
    } else if !ws.liquidity.min_cluster_notional_usd_valid {
        Some(NumericGuard::MinClusterNotional)
    } else if !ws.heatmap.bucket_size_pct_valid {
        Some(NumericGuard::HeatmapBucketSize)
    } else if ws.heatmap.retention_secs == 0 {
        Some(NumericGuard::HeatmapRetention)
    } else {
        None
    };
    match g {
        Some(guard) => Err(ConfigError::InvalidNumeric { guard }),
        None => Ok(()),
    }
}

// ---------------------------------------------------------------------
// Timeframe-set laws
// ---------------------------------------------------------------------

proof fn lemma_ascending_no_bad_from(set: Seq<u64>, i: int)
    requires
        strictly_ascending(set),
        forall|k: int| 0 <= k < set.len() ==> is_supported(#[trigger] set[k]),
        0 <= i,
    ensures
        first_bad_timeframe(set, i) is None,
    decreases set.len() - i,
{
    if i < set.len() {
        assert(is_supported(set[i]));
        if set.take(i).contains(set[i]) {
            let k = choose|k: int| 0 <= k < set.take(i).len() && set.take(i)[k] == set[i];
            assert(set[k] < set[i]);
        }
        lemma_ascending_no_bad_from(set, i + 1);
    }
}

/// Every strictly ascending, non-empty set of pool durations passes the
/// active-set guard (the pool has 14 members, so such a set has at most
/// 14 entries).
pub proof fn lemma_ascending_pool_subset_valid(set: Seq<u64>)
    requires
        strictly_ascending(set),
        forall|k: int| 0 <= k < set.len() ==> is_supported(#[trigger] set[k]),
        1 <= set.len() <= 14,
    ensures
        timeframe_set_failure(set) is None,
{
    lemma_ascending_no_bad_from(set, 0);
}

proof fn lemma_valid_set_supported_from(set: Seq<u64>, i: int)
    requires
        first_bad_timeframe(set, i) is None,
        0 <= i,
    ensures
        forall|k: int| i <= k < set.len() ==> is_supported(#[trigger] set[k]),
    decreases set.len() - i,
{
    if i < set.len() {
        lemma_valid_set_supported_from(set, i + 1);
    }
}

/// A set that passes the active-set guard heals to exactly its own
/// durations: healing drops nothing and adds nothing.
pub proof fn lemma_valid_set_heals_to_itself(set: Seq<u64>)
    requires
        timeframe_set_failure(set) is None,
    ensures
        forall|d: u64| active_ladder(set).contains(d) <==> set.contains(d),
{
    lemma_valid_set_supported_from(set, 0);
    lemma_pool_shape();
    let pred = |d: u64| set.contains(d);
    assert forall|d: u64| active_ladder(set).contains(d) <==> set.contains(d) by {
        if set.contains(d) {
            let k = choose|k: int| 0 <= k < set.len() && set[k] == d;
            assert(is_supported(set[k]));
            assert(pool_seq().contains(d));
            let i = choose|i: int| 0 <= i < pool_seq().len() && pool_seq()[i] == d;
            pool_seq().lemma_filter_contains(pred, i);
        }
        if active_ladder(set).contains(d) {
            pool_seq().lemma_filter_contains_rev(pred, d);
        }
    }
}

/// The default active ladder passes the active-set guard.
proof fn lemma_default_ladder_valid()
    ensures
        timeframe_set_failure(default_timeframes_seq()) is None,
{
    let set = default_timeframes_seq();
    assert(strictly_ascending(set));
    assert forall|k: int| 0 <= k < set.len() implies is_supported(#[trigger] set[k]) by {}
    lemma_ascending_pool_subset_valid(set);
}

// ---------------------------------------------------------------------
// Workspace accessors
// ---------------------------------------------------------------------

impl WorkspaceConfig {
    /// The symbols of the declared instances, in order.
    pub fn declared_symbols(&self) -> (syms: Vec<String>)
        ensures
            syms@.len() == self.instances@.len(),
            forall|i: int| 0 <= i < syms@.len() ==> #[trigger] syms@[i] == self.instances@[i].symbol,
    {
        let mut syms: Vec<String> = Vec::new();
        let mut i: usize = 0;
        while i < self.instances.len()
            invariant
                i <= self.instances@.len(),
                syms@.len() == i,
                forall|k: int| 0 <= k < i ==> #[trigger] syms@[k] == self.instances@[k].symbol,
            decreases self.instances.len() - i,
        {
            syms.push(self.instances[i].symbol.clone());
            i = i + 1;
        }
        syms
    }

    /// The full supported duration pool, fastest to slowest.
    pub fn tf_ladder_defaults(&self) -> (ladder: Vec<u64>)
        ensures
            ladder@ == pool_seq(),
    {
        supported_durations_vec()
    }

    /// The active ladder: the configured durations that are pool members,
    /// once each, fastest first.
    pub fn active_timeframes_for(&self) -> (ladder: Vec<u64>)
        ensures
            ladder@ == active_ladder(self.timeframes@),
            strictly_ascending(ladder@),
            forall|d: u64| ladder@.contains(d) <==> (is_supported(d) && self.timeframes@.contains(d)),
    {
        heal_ladder(&self.timeframes)
    }

    /// The inheritance chain of the strategy named `name` (see
    /// [`resolve_chain`]).
    pub fn resolve_strategy_chain(&self, name: &str) -> (r: Result<Vec<ChainLink>, ResolveError>)
        ensures
            match r {
                Ok(links) => resolve_spec(self.strategies@, name@) == Ok::<Seq<ChainLink>, ResolveFailure>(links@),
                Err(e) => resolve_spec(self.strategies@, name@) == Err::<Seq<ChainLink>, ResolveFailure>(e@),
            },
    {
        resolve_chain(&self.strategies, name)
    }

    /// Resolves the strategy named `name` through its base chain. On
    /// success the result is the named strategy with every base merged in:
    /// as each strategy states all of its settings, the held settings are
    /// those of the named strategy, under its own name, and the base is
    /// cleared. Fails exactly as [`resolve_chain`] does.
    pub fn resolve_strategy(&self, name: &str) -> (r: Result<StrategyConfig, ResolveError>)
        ensures
            match r {
                Ok(s) => {
                    &&& resolve_spec(self.strategies@, name@) is Ok
                    &&& first_named_from(self.strategies@, name@, 0) matches Some(i)
                        && same_settings(s, self.strategies@[i])
                    &&& s.name@ == name@
                    &&& s.base is None
                },
                Err(e) => resolve_spec(self.strategies@, name@) == Err::<Seq<ChainLink>, ResolveFailure>(e@),
            },
    {
        match resolve_chain(&self.strategies, name) {
            Err(e) => Err(e),
            Ok(_) => match find_named(&self.strategies, name) {
                Some(i) => {
                    proof {
                        crate::strategy::lemma_first_named_in_range(self.strategies@, name@, 0);
                    }
                    Ok(finished_copy(&self.strategies[i]))
                },
                None => {
                    proof {
                        assert(resolve_spec(self.strategies@, name@) is Err);
                    }
                    Err(ResolveError::NotFound(String::from_str(name)))
                },
            },
        }
    }

    /// The inheritance chain of the `default` strategy, the one every
    /// instance binds at launch.
    pub fn default_strategy_chain(&self) -> (r: Result<Vec<ChainLink>, ResolveError>)
        ensures
            match r {
                Ok(links) => resolve_spec(self.strategies@, "default"@) == Ok::<Seq<ChainLink>, ResolveFailure>(
                    links@,
                ),
                Err(e) => resolve_spec(self.strategies@, "default"@) == Err::<Seq<ChainLink>, ResolveFailure>(e@),
            },
    {
        resolve_chain(&self.strategies, "default")
    }

    /// Adds the built-in `default` strategy when no strategy carries that
    /// name; otherwise leaves the workspace unchanged. Afterwards a strategy
    /// named `default` exists.
    pub fn ensure_default_strategy(&mut self)
        ensures
            first_named_from(old(self).strategies@, "default"@, 0) is Some ==> *final(self) == *old(self),
            first_named_from(old(self).strategies@, "default"@, 0) is None ==> {
                &&& final(self).strategies@.len() == old(self).strategies@.len() + 1
                &&& final(self).strategies@.take(old(self).strategies@.len() as int) == old(self).strategies@
                &&& final(self).strategies@.last().name@ == "default"@
                &&& final(self).strategies@.last().base is None
                &&& *final(self) == (WorkspaceConfig { strategies: final(self).strategies, ..*old(self) })
            },
            first_named_from(final(self).strategies@, "default"@, 0) is Some,
    {
        match find_named(&self.strategies, "default") {
            Some(_) => {},
            None => {
                let ghost before = self.strategies@;
                self.strategies.push(StrategyConfig::default());
                proof {
                    assert(self.strategies@.take(before.len() as int) =~= before);
                    lemma_named_in_prefix_absent(before, self.strategies@, "default"@);
                }
            },
        }
    }
}

/// The default workspace resolves `default` to the built-in default
/// strategy: its chain is that one strategy, and a resolution of it (every
/// setting kept, base cleared) has exactly the default settings.
pub proof fn lemma_default_workspace_resolves_default(ws: WorkspaceConfig, s: StrategyConfig)
    requires
        ws.is_default(),
    ensures
        resolve_spec(ws.strategies@, "default"@) == Ok::<Seq<ChainLink>, ResolveFailure>(
            seq![ChainLink::Declared(0)],
        ),
        same_settings(s, ws.strategies@[0]) && s.base is None ==> s.is_default(),
{
    let strats = ws.strategies@;
    assert(first_named_from(strats, "default"@, 0) == Some(0int));
    assert(walk(strats, ChainLink::Declared(0), Seq::empty(), strats.len()) == Ok::<
        Seq<ChainLink>,
        ResolveFailure,
    >(seq![ChainLink::Declared(0)]));
}

proof fn lemma_named_in_prefix_absent(before: Seq<StrategyConfig>, after: Seq<StrategyConfig>, name: Seq<char>)
    requires
        first_named_from(before, name, 0) is None,
        after.len() == before.len() + 1,
        after.take(before.len() as int) == before,
        after.last().name@ == name,
    ensures
        first_named_from(after, name, 0) == Some(before.len() as int),
{
    lemma_first_named_absent_prefix(before, after, name, 0);
}

proof fn lemma_first_named_absent_prefix(
    before: Seq<StrategyConfig>,
    after: Seq<StrategyConfig>,
    name: Seq<char>,
    k: int,
)
    requires
        first_named_from(before, name, k) is None,
        after.len() == before.len() + 1,
        after.take(before.len() as int) == before,
        after.last().name@ == name,
        0 <= k <= before.len(),
    ensures
        first_named_from(after, name, k) == Some(before.len() as int),
    decreases before.len() - k,
{
    if k < before.len() {
        assert(after[k] == before[k]);
        lemma_first_named_absent_prefix(before, after, name, k + 1);
    }
}

} // verus!
