//! Exchange endpoints, candle settings, operational modes, order
//! vocabulary and the small configuration blocks of the platform, each with
//! its default.
use vstd::prelude::*;
use vstd::string::*;
use crate::text::{
    chars_of, contains_chars, contains_seq, replace_chars, replace_seq, string_from_chars,
};

verus! {

// ---------------------------------------------------------------------
// Exchange endpoints
// ---------------------------------------------------------------------

/// Hyperliquid WebSocket endpoint.
#[derive(Debug, Clone, PartialEq, Eq)]
pub struct HyperliquidConfig {
    pub ws_url: String,
}

fn default_hyperliquid_ws_url() -> (s: String)
    ensures
        s@ == "wss://api.hyperliquid.xyz/ws"@,
{
    String::from_str("wss://api.hyperliquid.xyz/ws")
}

impl HyperliquidConfig {
    /// The settings of the default value.
    pub open spec fn is_default(self) -> bool {
        &&& self.ws_url@ == "wss://api.hyperliquid.xyz/ws"@
    }
}

impl Default for HyperliquidConfig {
    fn default() -> (c: Self)
        ensures
            c.is_default(),
    {
        HyperliquidConfig { ws_url: default_hyperliquid_ws_url() }
    }
}

/// The REST endpoint derived from a WebSocket URL: `wss://` becomes
/// `https://`, then `ws://` becomes `http://`, then `/ws` becomes `/info`.
pub open spec fn hyperliquid_rest_url(ws_url: Seq<char>) -> Seq<char> {
    replace_seq(
        replace_seq(replace_seq(ws_url, "wss://"@, "https://"@), "ws://"@, "http://"@),
        "/ws"@,
        "/info"@,
    )
}

impl HyperliquidConfig {
    /// The REST `info` endpoint that matches the configured WebSocket URL.
    pub fn rest_url(&self) -> (url: String)
        ensures
            url@ == hyperliquid_rest_url(self.ws_url@),
    {
        proof {
            reveal_strlit("wss://");
            reveal_strlit("ws://");
            reveal_strlit("/ws");
        }
        let ws = chars_of(self.ws_url.as_str());
        let step1 = replace_chars(&ws, &chars_of("wss://"), &chars_of("https://"));
        let step2 = replace_chars(&step1, &chars_of("ws://"), &chars_of("http://"));
        let step3 = replace_chars(&step2, &chars_of("/ws"), &chars_of("/info"));
        string_from_chars(&step3)
    }
}

/// Bitget WebSocket endpoint.
#[derive(Debug, Clone, PartialEq, Eq)]
pub struct BitgetConfig {
    pub ws_url: String,
}

fn default_bitget_ws_url() -> (s: String)
    ensures
        s@ == "wss://ws.bitget.com/v2/ws/public"@,
{
    String::from_str("wss://ws.bitget.com/v2/ws/public")
}

impl BitgetConfig {
    /// The settings of the default value.
    pub open spec fn is_default(self) -> bool {
        &&& self.ws_url@ == "wss://ws.bitget.com/v2/ws/public"@
    }
}

impl Default for BitgetConfig {
    fn default() -> (c: Self)
        ensures
            c.is_default(),
    {
        BitgetConfig { ws_url: default_bitget_ws_url() }
    }
}

impl BitgetConfig {
    /// Base path of the Bitget V2 mix (perpetual futures) market endpoints.
    pub fn mix_base_url(&self) -> (url: String)
        ensures
            url@ == "https://api.bitget.com/api/v2/mix/market"@,
    {
        String::from_str("https://api.bitget.com/api/v2/mix/market")
    }

    /// The candles endpoint.
    pub fn rest_url(&self) -> (url: String)
        ensures
            url@ == "https://api.bitget.com/api/v2/mix/market"@ + "/candles"@,
    {
        let mut url = self.mix_base_url();
        url.append("/candles");
        url
    }

    /// The ticker endpoint, used to check that a contract symbol exists.
    pub fn ticker_url(&self) -> (url: String)
        ensures
            url@ == "https://api.bitget.com/api/v2/mix/market"@ + "/ticker"@,
    {
        let mut url = self.mix_base_url();
        url.append("/ticker");
        url
    }
}

// ---------------------------------------------------------------------
// Candles
// ---------------------------------------------------------------------

#[derive(Debug, Clone, Copy, PartialEq, Eq)]
pub struct CandlesConfig {
    pub duration_seconds: u64,
}

fn default_candle_duration() -> (d: u64)
    ensures
        d == 60,
{
    60
}

impl CandlesConfig {
    /// The settings of the default value.
    pub open spec fn is_default(self) -> bool {
        &&& self.duration_seconds == 60
    }
}

impl Default for CandlesConfig {
    fn default() -> (c: Self)
        ensures
            c.is_default(),
    {
        CandlesConfig { duration_seconds: default_candle_duration() }
    }
}

/// The platform's candle buffer behaviour.
#[derive(Debug, Clone, Copy, PartialEq, Eq)]
pub struct CandleBufferConfig {
    /// Rolling buffer length and historical warmup depth.
    pub size: usize,
    /// Seconds without a completed candle before a pipeline turns stale.
    pub stale_threshold_secs: u64,
    /// Upper bound on time spent paginating the historical endpoint.
    pub fetch_timeout_ms: u64,
    /// Skip the historical warmup for sub-minute timeframes.
    pub sub_minute_skip_historical: bool,
}

fn default_candle_buffer_size() -> (n: usize)
    ensures
        n == 500,
{
    500
}

fn default_stale_threshold_secs() -> (n: u64)
    ensures
        n == 300,
{
    300
}

fn default_fetch_timeout_ms() -> (n: u64)
    ensures
        n == 30_000,
{
    30_000
}

fn default_sub_minute_skip_historical() -> (b: bool)
    ensures
        !b,
{
    false
}

impl CandleBufferConfig {
    /// The settings of the default value.
    pub open spec fn is_default(self) -> bool {
        &&& self.size == 500
        &&& self.stale_threshold_secs == 300
        &&& self.fetch_timeout_ms == 30_000
        &&& !self.sub_minute_skip_historical
    }
}

impl Default for CandleBufferConfig {
    fn default() -> (c: Self)
        ensures
            c.is_default(),
    {
        CandleBufferConfig {
            size: default_candle_buffer_size(),
            stale_threshold_secs: default_stale_threshold_secs(),
            fetch_timeout_ms: default_fetch_timeout_ms(),
            sub_minute_skip_historical: default_sub_minute_skip_historical(),
        }
    }
}

/// Reports whether a raw configuration text still names the retired
/// per-instance `analysis_limit` key.
pub fn detect_legacy_analysis_limit_keys(raw_toml: &str) -> (found: bool)
    ensures
        found == contains_seq(raw_toml@, "analysis_limit"@),
{
    let text = chars_of(raw_toml);
    let key = chars_of("analysis_limit");
    contains_chars(&text, &key)
}

// ---------------------------------------------------------------------
// Timeframe, leverage, automation
// ---------------------------------------------------------------------

#[derive(Debug, Clone, Copy, PartialEq, Eq)]
pub struct SlowTimeframeConfig {
    pub enabled: bool,
    pub duration_seconds: u64,
}

/// The fast timeframe block has the same shape as the slow one.
pub type FastTimeframeConfig = SlowTimeframeConfig;

fn default_enabled_true() -> (b: bool)
    ensures
        b,
{
    true
}

impl SlowTimeframeConfig {
    /// The settings of the default value.
    pub open spec fn is_default(self) -> bool {
        &&& self.enabled
        &&& self.duration_seconds == 300
    }
}

impl Default for SlowTimeframeConfig {
    fn default() -> (c: Self)
        ensures
            c.is_default(),
    {
        SlowTimeframeConfig { enabled: default_enabled_true(), duration_seconds: 300 }
    }
}

#[derive(Debug, Clone, Copy, PartialEq, Eq)]
pub struct LeverageConfig {
    pub cross_leverage: u32,
}

fn default_cross_leverage() -> (n: u32)
    ensures
        n == 20,
{
    20
}

impl LeverageConfig {
    /// The settings of the default value.
    pub open spec fn is_default(self) -> bool {
        &&& self.cross_leverage == 20
    }
}

impl Default for LeverageConfig {
    fn default() -> (c: Self)
        ensures
            c.is_default(),
    {
        LeverageConfig { cross_leverage: default_cross_leverage() }
    }
}

#[derive(Debug, Clone, Copy, PartialEq, Eq)]
pub struct AutomationConfig {
    pub enabled: bool,
    pub interval_seconds: u64,
    pub max_opposite_exit_signals: usize,
}

fn default_max_opposite_exit_signals() -> (n: usize)
    ensures
        n == 5,
{
    5
}

fn default_automation_interval() -> (n: u64)
    ensures
        n == 900,
{
    900
}

impl AutomationConfig {
    /// The settings of the default value.
    pub open spec fn is_default(self) -> bool {
        &&& !self.enabled
        &&& self.interval_seconds == 900
        &&& self.max_opposite_exit_signals == 5
    }
}

impl Default for AutomationConfig {
    fn default() -> (c: Self)
        ensures
            c.is_default(),
    {
        AutomationConfig {
            enabled: false,
            interval_seconds: default_automation_interval(),
            max_opposite_exit_signals: default_max_opposite_exit_signals(),
        }
    }
}

// ---------------------------------------------------------------------
// Operational mode
// ---------------------------------------------------------------------

/// Each instance runs in exactly one mode: `Advisory` only monitors,
/// `PaperTrading` simulates orders, `LiveTrading` submits real orders.
#[derive(Debug, Clone, Copy, PartialEq, Eq)]
pub enum OperationalMode {
    Advisory,
    PaperTrading,
    LiveTrading,
}

impl OperationalMode {
    /// The settings of the default value.
    pub open spec fn is_default(self) -> bool {
        &&& self == OperationalMode::Advisory
    }
}

impl Default for OperationalMode {
    fn default() -> (m: Self)
        ensures
            m.is_default(),
    {
        OperationalMode::Advisory
    }
}

impl OperationalMode {
    pub open spec fn label(self) -> &'static str {
        match self {
            OperationalMode::Advisory => "advisory",
            OperationalMode::PaperTrading => "paper_trading",
            OperationalMode::LiveTrading => "live_trading",
        }
    }

    pub fn as_str(&self) -> (s: &'static str)
        ensures
            s == self.label(),
    {
        match self {
            OperationalMode::Advisory => "advisory",
            OperationalMode::PaperTrading => "paper_trading",
            OperationalMode::LiveTrading => "live_trading",
        }
    }

    /// True when the mode lets the execution layer submit orders (simulated
    /// or real).
    pub fn is_trading(&self) -> (b: bool)
        ensures
            b == (*self == OperationalMode::PaperTrading || *self == OperationalMode::LiveTrading),
    {
        match self {
            OperationalMode::Advisory => false,
            OperationalMode::PaperTrading => true,
            OperationalMode::LiveTrading => true,
        }
    }
}

#[derive(Debug, Clone, PartialEq, Eq)]
pub struct DefaultsConfig {
    pub default_pair: String,
}

fn default_default_pair() -> (s: String)
    ensures
        s@ == "BTC/USDT"@,
{
    String::from_str("BTC/USDT")
}

impl DefaultsConfig {
    /// The settings of the default value.
    pub open spec fn is_default(self) -> bool {
        &&& self.default_pair@ == "BTC/USDT"@
    }
}

impl Default for DefaultsConfig {
    fn default() -> (c: Self)
        ensures
            c.is_default(),
    {
        DefaultsConfig { default_pair: default_default_pair() }
    }
}

#[derive(Debug, Clone, Copy, PartialEq, Eq)]
pub struct IntervalsConfig {
    pub slow_seconds: u64,
    pub normal_seconds: u64,
    pub fast_seconds: u64,
}

fn default_slow_seconds() -> (n: u64)
    ensures
        n == 3600,
{
    3600
}

fn default_normal_seconds() -> (n: u64)
    ensures
        n == 900,
{
    900
}

fn default_fast_seconds() -> (n: u64)
    ensures
        n == 300,
{
    300
}

impl IntervalsConfig {
    /// The settings of the default value.
    pub open spec fn is_default(self) -> bool {
        &&& self.slow_seconds == 3600
        &&& self.normal_seconds == 900
        &&& self.fast_seconds == 300
    }
}

impl Default for IntervalsConfig {
    fn default() -> (c: Self)
        ensures
            c.is_default(),
    {
        IntervalsConfig {
            slow_seconds: default_slow_seconds(),
            normal_seconds: default_normal_seconds(),
            fast_seconds: default_fast_seconds(),
        }
    }
}

/// Per-indicator, per-signal and per-kind activation. The three liquidity
/// toggles are optional: `None` falls through to the global setting.
#[derive(Debug, Clone, PartialEq, Eq)]
pub struct ActivationConfig {
    pub disabled_indicators: Vec<String>,
    pub disabled_signals: Vec<String>,
    pub disabled_signal_kinds: Vec<String>,
    pub liquidation_feed: Option<bool>,
    pub cluster_estimation: Option<bool>,
    pub liquidity_signals_enabled: Option<bool>,
}

impl ActivationConfig {
    /// The settings of the default value.
    pub open spec fn is_default(self) -> bool {
        &&& self.disabled_indicators@.len() == 0
        &&& self.disabled_signals@.len() == 0
        &&& self.disabled_signal_kinds@.len() == 0
        &&& self.liquidation_feed == Some(true)
        &&& self.cluster_estimation == Some(true)
        &&& self.liquidity_signals_enabled == Some(true)
    }
}

impl Default for ActivationConfig {
    fn default() -> (c: Self)
        ensures
            c.is_default(),
    {
        ActivationConfig {
            disabled_indicators: Vec::new(),
            disabled_signals: Vec::new(),
            disabled_signal_kinds: Vec::new(),
            liquidation_feed: Some(true),
            cluster_estimation: Some(true),
            liquidity_signals_enabled: Some(true),
        }
    }
}

/// Failover tolerance of the derivatives-data pollers.
#[derive(Debug, Clone, Copy, PartialEq, Eq)]
pub struct ApiFailoverConfig {
    pub max_retries_per_call: u32,
    pub retry_delay_seconds: u32,
    pub max_consecutive_failures: u32,
}

fn default_failover_max_retries() -> (n: u32)
    ensures
        n == 5,
{
    5
}

fn default_failover_retry_delay_seconds() -> (n: u32)
    ensures
        n == 30,
{
    30
}

fn default_failover_max_consecutive_failures() -> (n: u32)
    ensures
        n == 30,
{
    30
}

impl ApiFailoverConfig {
    /// The settings of the default value.
    pub open spec fn is_default(self) -> bool {
        &&& self.max_retries_per_call == 5
        &&& self.retry_delay_seconds == 30
        &&& self.max_consecutive_failures == 30
    }
}

impl Default for ApiFailoverConfig {
    fn default() -> (c: Self)
        ensures
            c.is_default(),
    {
        ApiFailoverConfig {
            max_retries_per_call: default_failover_max_retries(),
            retry_delay_seconds: default_failover_retry_delay_seconds(),
            max_consecutive_failures: default_failover_max_consecutive_failures(),
        }
    }
}

// ---------------------------------------------------------------------
// Clock monitor
// ---------------------------------------------------------------------

#[derive(Debug, Clone, Copy, PartialEq, Eq)]
pub enum ClockMonitorBreachAction {
    Warn,
    Panic,
}

/// The NTP clock-drift monitor.
#[derive(Debug, Clone, PartialEq, Eq)]
pub struct ClockMonitorTomlConfig {
    pub enabled: bool,
    pub ntp_servers: Vec<String>,
    pub poll_interval_secs: u64,
    pub threshold_micros: i64,
    pub query_timeout_secs: u64,
    pub jitter_window_size: usize,
    pub breach_action: ClockMonitorBreachAction,
    pub warn_on_breach: bool,
}

fn default_clock_monitor_enabled() -> (b: bool)
    ensures
        b,
{
    true
}

fn default_clock_monitor_servers() -> (v: Vec<String>)
    ensures
        v@.len() == 2,
        v@[0]@ == "pool.ntp.org"@,
        v@[1]@ == "time.aws.com"@,
{
    let mut v: Vec<String> = Vec::new();
    v.push(String::from_str("pool.ntp.org"));
    v.push(String::from_str("time.aws.com"));
    v
}

fn default_clock_monitor_poll_secs() -> (n: u64)
    ensures
        n == 30,
{
    30
}

fn default_clock_monitor_threshold_micros() -> (n: i64)
    ensures
        n == 10000,
{
    10000
}

fn default_clock_monitor_query_timeout_secs() -> (n: u64)
    ensures
        n == 5,
{
    5
}

fn default_clock_monitor_jitter_window() -> (n: usize)
    ensures
        n == 20,
{
    20
}

fn default_clock_monitor_breach_action() -> (a: ClockMonitorBreachAction)
    ensures
        a == ClockMonitorBreachAction::Warn,
{
    ClockMonitorBreachAction::Warn
}

fn default_clock_monitor_warn_on_breach() -> (b: bool)
    ensures
        b,
{
    true
}

impl ClockMonitorTomlConfig {
    /// The settings of the default value.
    pub open spec fn is_default(self) -> bool {
        &&& self.enabled
        &&& self.ntp_servers@.len() == 2
        &&& self.ntp_servers@[0]@ == "pool.ntp.org"@
        &&& self.ntp_servers@[1]@ == "time.aws.com"@
        &&& self.poll_interval_secs == 30
        &&& self.threshold_micros == 10000
        &&& self.query_timeout_secs == 5
        &&& self.jitter_window_size == 20
        &&& self.breach_action == ClockMonitorBreachAction::Warn
        &&& self.warn_on_breach
    }
}

impl Default for ClockMonitorTomlConfig {
    fn default() -> (c: Self)
        ensures
            c.is_default(),
    {
        ClockMonitorTomlConfig {
            enabled: default_clock_monitor_enabled(),
            ntp_servers: default_clock_monitor_servers(),
            poll_interval_secs: default_clock_monitor_poll_secs(),
            threshold_micros: default_clock_monitor_threshold_micros(),
            query_timeout_secs: default_clock_monitor_query_timeout_secs(),
            jitter_window_size: default_clock_monitor_jitter_window(),
            breach_action: default_clock_monitor_breach_action(),
            warn_on_breach: default_clock_monitor_warn_on_breach(),
        }
    }
}

impl ClockMonitorTomlConfig {
    /// The monitor runs only when it is enabled and has servers to ask.
    pub fn is_active(&self) -> (b: bool)
        ensures
            b == (self.enabled && self.ntp_servers@.len() > 0),
    {
        self.enabled && self.ntp_servers.len() > 0
    }
}

// ---------------------------------------------------------------------
// Reconnect timings (the integer part; the jitter fraction is kept by the
// loader)
// ---------------------------------------------------------------------

fn default_reconnect_initial_ms() -> (n: u64)
    ensures
        n == 1000,
{
    1000
}

fn default_reconnect_max_ms() -> (n: u64)
    ensures
        n == 30000,
{
    30000
}

fn default_reconnect_connect_grace_ms() -> (n: u64)
    ensures
        n == 2000,
{
    2000
}

fn default_reconnect_disconnect_grace_ms() -> (n: u64)
    ensures
        n == 5000,
{
    5000
}

/// WebSocket reconnect timings in milliseconds (the backoff jitter, a
/// fraction, is held beside this value).
#[derive(Debug, Clone, Copy, PartialEq, Eq)]
pub struct ReconnectConfig {
    pub initial_backoff_ms: u64,
    pub max_backoff_ms: u64,
    pub connect_grace_ms: u64,
    pub disconnect_grace_ms: u64,
}

impl ReconnectConfig {
    /// The settings of the default value.
    pub open spec fn is_default(self) -> bool {
        &&& self.initial_backoff_ms == 1000
        &&& self.max_backoff_ms == 30000
        &&& self.connect_grace_ms == 2000
        &&& self.disconnect_grace_ms == 5000
    }
}

impl Default for ReconnectConfig {
    fn default() -> (c: Self)
        ensures
            c.is_default(),
    {
        ReconnectConfig {
            initial_backoff_ms: default_reconnect_initial_ms(),
            max_backoff_ms: default_reconnect_max_ms(),
            connect_grace_ms: default_reconnect_connect_grace_ms(),
            disconnect_grace_ms: default_reconnect_disconnect_grace_ms(),
        }
    }
}

// ---------------------------------------------------------------------
// Trade automation vocabulary
// ---------------------------------------------------------------------

/// Per-instance lifecycle state.
#[derive(Debug, Clone, Copy, PartialEq, Eq)]
pub enum LifecycleState {
    Running,
    LifecyclePaused,
    Stopping,
    Stopped,
}

impl LifecycleState {
    /// The settings of the default value.
    pub open spec fn is_default(self) -> bool {
        &&& self == LifecycleState::Stopped
    }
}

impl Default for LifecycleState {
    fn default() -> (s: Self)
        ensures
            s.is_default(),
    {
        LifecycleState::Stopped
    }
}

impl LifecycleState {
    pub open spec fn label(self) -> &'static str {
        match self {
            LifecycleState::Running => "RUNNING",
            LifecycleState::LifecyclePaused => "PAUSED",
            LifecycleState::Stopping => "STOPPING",
            LifecycleState::Stopped => "STOPPED",
        }
    }

    pub fn as_str(&self) -> (s: &'static str)
        ensures
            s == self.label(),
    {
        match self {
            LifecycleState::Running => "RUNNING",
            LifecycleState::LifecyclePaused => "PAUSED",
            LifecycleState::Stopping => "STOPPING",
            LifecycleState::Stopped => "STOPPED",
        }
    }
}

/// Trade direction.
#[derive(Debug, Clone, Copy, PartialEq, Eq)]
pub enum Direction {
    Long,
    Short,
}

/// `rust_decimal::Decimal`, carried unread.
#[verifier::external_type_specification]
#[verifier::external_body]
pub struct ExDecimal(rust_decimal::Decimal);

/// The decimal that `rust_decimal` converts an `i64` to.
pub uninterp spec fn decimal_of_i64(n: i64) -> rust_decimal::Decimal;

/// `rust_decimal::Decimal::from(n)` for an `i64` (exact: every `i64` is a
/// decimal of scale zero). Stated only as the named conversion of `n`.
#[verifier::external_body]
fn decimal_from_i64(n: i64) -> (d: rust_decimal::Decimal)
    ensures
        d == decimal_of_i64(n),
{
    rust_decimal::Decimal::from(n)
}

/// The unit sign of a direction: +1 for long, -1 for short.
pub open spec fn direction_sign(d: Direction) -> i64 {
    match d {
        Direction::Long => 1i64,
        Direction::Short => -1i64,
    }
}

impl Direction {
    /// The signed unit of the direction as a decimal: one for long, minus
    /// one for short.
    pub fn sign(&self) -> (s: rust_decimal::Decimal)
        ensures
            s == decimal_of_i64(direction_sign(*self)),
    {
        match self {
            Direction::Long => decimal_from_i64(1),
            Direction::Short => decimal_from_i64(-1),
        }
    }
}

#[derive(Debug, Clone, Copy, PartialEq, Eq)]
pub enum OrderType {
    Market,
    Limit,
    Stop,
}

#[derive(Debug, Clone, Copy, PartialEq, Eq)]
pub enum OrderSide {
    Buy,
    Sell,
}

#[derive(Debug, Clone, Copy, PartialEq, Eq)]
pub enum OrderStatus {
    PreDispatch,
    Pending,
    Submitted,
    Open,
    PartiallyFilled,
    Closed,
    Cancelled,
    Rejected,
}

impl OrderStatus {
    pub open spec fn label(self) -> &'static str {
        match self {
            OrderStatus::PreDispatch => "PRE_DISPATCH",
            OrderStatus::Pending => "PENDING",
            OrderStatus::Submitted => "SUBMITTED",
            OrderStatus::Open => "OPEN",
            OrderStatus::PartiallyFilled => "PARTIALLY_FILLED",
            OrderStatus::Closed => "CLOSED",
            OrderStatus::Cancelled => "CANCELLED",
            OrderStatus::Rejected => "REJECTED",
        }
    }

    pub fn as_str(&self) -> (s: &'static str)
        ensures
            s == self.label(),
    {
        match self {
            OrderStatus::PreDispatch => "PRE_DISPATCH",
            OrderStatus::Pending => "PENDING",
            OrderStatus::Submitted => "SUBMITTED",
            OrderStatus::Open => "OPEN",
            OrderStatus::PartiallyFilled => "PARTIALLY_FILLED",
            OrderStatus::Closed => "CLOSED",
            OrderStatus::Cancelled => "CANCELLED",
            OrderStatus::Rejected => "REJECTED",
        }
    }
}

// ---------------------------------------------------------------------
// Snapshot export and backtest settings
// ---------------------------------------------------------------------

/// The periodic snapshot-export scheduler.
#[derive(Debug, Clone, PartialEq, Eq)]
pub struct SnapshotExportConfig {
    pub enabled: bool,
    pub output_path: String,
    pub interval_secs: u64,
    pub max_snapshots_retained: u32,
    /// `None` writes every tab.
    pub tabs: Option<Vec<String>>,
}

fn default_snapshot_export_enabled() -> (b: bool)
    ensures
        !b,
{
    false
}

fn default_snapshot_export_output_path() -> (s: String)
    ensures
        s@ == "./snapshots"@,
{
    String::from_str("./snapshots")
}

fn default_snapshot_export_interval_secs() -> (n: u64)
    ensures
        n == 60,
{
    60
}

fn default_snapshot_export_max_snapshots_retained() -> (n: u32)
    ensures
        n == 1000,
{
    1000
}

impl SnapshotExportConfig {
    /// The settings of the default value.
    pub open spec fn is_default(self) -> bool {
        &&& !self.enabled
        &&& self.output_path@ == "./snapshots"@
        &&& self.interval_secs == 60
        &&& self.max_snapshots_retained == 1000
        &&& self.tabs is None
    }
}

impl Default for SnapshotExportConfig {
    fn default() -> (c: Self)
        ensures
            c.is_default(),
    {
        SnapshotExportConfig {
            enabled: default_snapshot_export_enabled(),
            output_path: default_snapshot_export_output_path(),
            interval_secs: default_snapshot_export_interval_secs(),
            max_snapshots_retained: default_snapshot_export_max_snapshots_retained(),
            tabs: None,
        }
    }
}

/// Per-exchange paging limits of the archive backfill.
#[derive(Debug, Clone, Copy, PartialEq, Eq)]
pub struct ExchangeBacktestLimits {
    pub page_cap: u32,
    pub rate_limit_delay_ms: u64,
    pub max_pages_per_run: u32,
    pub max_candles_per_tf: u32,
}

fn default_backtest_page_cap() -> (n: u32)
    ensures
        n == 1000,
{
    1000
}

fn default_backtest_rate_limit_delay_ms() -> (n: u64)
    ensures
        n == 1000,
{
    1000
}

fn default_backtest_max_pages_per_run() -> (n: u32)
    ensures
        n == 2000,
{
    2000
}

fn default_backtest_max_candles_per_tf() -> (n: u32)
    ensures
        n == 0,
{
    0
}

impl ExchangeBacktestLimits {
    /// The settings of the default value.
    pub open spec fn is_default(self) -> bool {
        &&& self.page_cap == 1000
        &&& self.rate_limit_delay_ms == 1000
        &&& self.max_pages_per_run == 2000
        &&& self.max_candles_per_tf == 0
    }
}

impl Default for ExchangeBacktestLimits {
    fn default() -> (c: Self)
        ensures
            c.is_default(),
    {
        ExchangeBacktestLimits {
            page_cap: default_backtest_page_cap(),
            rate_limit_delay_ms: default_backtest_rate_limit_delay_ms(),
            max_pages_per_run: default_backtest_max_pages_per_run(),
            max_candles_per_tf: default_backtest_max_candles_per_tf(),
        }
    }
}

/// Backtesting engine settings.
#[derive(Debug, Clone, Copy, PartialEq, Eq)]
pub struct BacktestConfig {
    /// Candle-archive retention and maximum backfill depth, in days.
    pub archive_depth_days: u32,
    /// Warmup bars before the first aligned decision.
    pub warmup_bars: u32,
    pub store_input_bars: bool,
    pub max_equity_points: u32,
    pub max_snapshots: u32,
    pub hyperliquid: ExchangeBacktestLimits,
    pub bitget: ExchangeBacktestLimits,
}

fn default_backtest_archive_depth_days() -> (n: u32)
    ensures
        n == 180,
{
    180
}

fn default_backtest_warmup_bars() -> (n: u32)
    ensures
        n == 300,
{
    300
}

fn default_backtest_store_input_bars() -> (b: bool)
    ensures
        b,
{
    true
}

fn default_backtest_max_equity_points() -> (n: u32)
    ensures
        n == 2000,
{
    2000
}

fn default_backtest_max_snapshots() -> (n: u32)
    ensures
        n == 50_000,
{
    50_000
}

impl BacktestConfig {
    /// The settings of the default value.
    pub open spec fn is_default(self) -> bool {
        &&& self.archive_depth_days == 180
        &&& self.warmup_bars == 300
        &&& self.store_input_bars
        &&& self.max_equity_points == 2000
        &&& self.max_snapshots == 50_000
        &&& self.hyperliquid == (ExchangeBacktestLimits { page_cap: 1000, rate_limit_delay_ms: 1000, max_pages_per_run: 2000, max_candles_per_tf: 5000, })
        &&& self.bitget == (ExchangeBacktestLimits { page_cap: 200, rate_limit_delay_ms: 100, max_pages_per_run: 6000, max_candles_per_tf: 0, })
    }
}

impl Default for BacktestConfig {
    fn default() -> (c: Self)
        ensures
            c.is_default(),
    {
        BacktestConfig {
            archive_depth_days: default_backtest_archive_depth_days(),
            warmup_bars: default_backtest_warmup_bars(),
            store_input_bars: default_backtest_store_input_bars(),
            max_equity_points: default_backtest_max_equity_points(),
            max_snapshots: default_backtest_max_snapshots(),
            hyperliquid: ExchangeBacktestLimits {
                page_cap: 1000,
                rate_limit_delay_ms: 1000,
                max_pages_per_run: 2000,
                max_candles_per_tf: 5000,
            },
            bitget: ExchangeBacktestLimits {
                page_cap: 200,
                rate_limit_delay_ms: 100,
                max_pages_per_run: 6000,
                max_candles_per_tf: 0,
            },
        }
    }
}

} // verus!
