//! Strategy models: named bundles of model, execution, risk and verdict
//! policy, their structural validation and the inheritance chain along
//! `base`.
//!
//! A strategy may declare a `base`; the settings it states explicitly
//! override the base, everything else is inherited. Of the floating-point
//! dials that validation guards, the structs here hold the verdict of the
//! guard (`*_valid`); the caller evaluates it on the floating-point value.
use vstd::prelude::*;
use vstd::string::*;
use crate::text::{chars_of, push_decimal, same_text, string_from_chars, trim_chars, trim_seq, trim_start_seq, decimal_text};

verus! {

// ---------------------------------------------------------------------
// Model layers (the parts held here)
// ---------------------------------------------------------------------

/// Derivatives-data poller failover tolerances.
#[derive(Debug, Clone, Copy, PartialEq, Eq)]
pub struct L1_5FailoverParams {
    pub max_retries_per_call: u32,
    pub retry_delay_seconds: u32,
    pub max_consecutive_failures: u32,
}

impl L1_5FailoverParams {
    /// The settings of the default value.
    pub open spec fn is_default(self) -> bool {
        &&& self.max_retries_per_call == 5
        &&& self.retry_delay_seconds == 30
        &&& self.max_consecutive_failures == 30
    }
}

impl Default for L1_5FailoverParams {
    fn default() -> (p: Self)
        ensures
            p.is_default(),
    {
        L1_5FailoverParams { max_retries_per_call: 5, retry_delay_seconds: 30, max_consecutive_failures: 30 }
    }
}

/// The liquidity layer's settings held here: its switches, polling and
/// retention, and the failover tolerances (the floating-point thresholds
/// and weights are held beside this value).
#[derive(Debug, Clone, Copy, PartialEq, Eq)]
pub struct L1_5Params {
    pub enabled: bool,
    pub liquidation_feed: bool,
    pub cluster_estimation: bool,
    pub signals: bool,
    pub mark_price_poll_ms: u64,
    pub event_retention_days: u32,
    pub bucket_retention_days: u32,
    /// `0` lets each duration refresh on its own cadence.
    pub cluster_refresh_secs: u64,
    pub cascade_sustained_events: u32,
    pub api_failover: L1_5FailoverParams,
}

impl L1_5Params {
    /// The settings of the default value.
    pub open spec fn is_default(self) -> bool {
        &&& self.enabled
        &&& self.liquidation_feed
        &&& self.cluster_estimation
        &&& self.signals
        &&& self.mark_price_poll_ms == 60_000
        &&& self.event_retention_days == 90
        &&& self.bucket_retention_days == 7
        &&& self.cluster_refresh_secs == 0
        &&& self.cascade_sustained_events == 3
        &&& self.api_failover.is_default()
    }
}

impl Default for L1_5Params {
    fn default() -> (p: Self)
        ensures
            p.is_default(),
    {
        L1_5Params {
            enabled: true,
            liquidation_feed: true,
            cluster_estimation: true,
            signals: true,
            mark_price_poll_ms: 60_000,
            event_retention_days: 90,
            bucket_retention_days: 7,
            cluster_refresh_secs: 0,
            cascade_sustained_events: 3,
            api_failover: L1_5FailoverParams::default(),
        }
    }
}

/// Cross-timeframe confluence: a signal must appear in at least `min_tfs`
/// timeframes to count.
#[derive(Debug, Clone, Copy, PartialEq, Eq)]
pub struct L2Confluence {
    pub min_tfs: u8,
}

impl L2Confluence {
    /// The settings of the default value.
    pub open spec fn is_default(self) -> bool {
        &&& self.min_tfs == 2
    }
}

impl Default for L2Confluence {
    fn default() -> (c: Self)
        ensures
            c.is_default(),
    {
        L2Confluence { min_tfs: 2 }
    }
}

/// The alignment layer's settings held here (the floating-point weights
/// and blends are held beside this value).
#[derive(Debug, Clone, Copy, PartialEq, Eq)]
pub struct L2Params {
    pub confluence: L2Confluence,
    /// Weight the trend agreement by the timeframe weights (otherwise it
    /// counts timeframes).
    pub trend_agreement_weighted: bool,
}

impl L2Params {
    /// The settings of the default value.
    pub open spec fn is_default(self) -> bool {
        &&& self.confluence.is_default()
        &&& !self.trend_agreement_weighted
    }
}

impl Default for L2Params {
    fn default() -> (p: Self)
        ensures
            p.is_default(),
    {
        L2Params { confluence: L2Confluence::default(), trend_agreement_weighted: false }
    }
}

/// The setup kinds of the selection tree, in their default priority.
pub open spec fn all_setups() -> Seq<Seq<char>> {
    seq![
        "LiquiditySqueeze"@,
        "Scalp"@,
        "TrendContinuation"@,
        "Breakout"@,
        "Reversal"@,
        "Pullback"@,
        "MeanReversion"@,
    ]
}

/// Enabled setups and the first-match priority order of the selection tree.
#[derive(Debug, Clone, PartialEq, Eq)]
pub struct L4Setups {
    pub enabled: Vec<String>,
    pub priority: Vec<String>,
}

fn setup_names() -> (v: Vec<String>)
    ensures
        v@.len() == 7,
        forall|i: int| 0 <= i < 7 ==> #[trigger] v@[i]@ == all_setups()[i],
{
    let mut v: Vec<String> = Vec::new();
    v.push(String::from_str("LiquiditySqueeze"));
    v.push(String::from_str("Scalp"));
    v.push(String::from_str("TrendContinuation"));
    v.push(String::from_str("Breakout"));
    v.push(String::from_str("Reversal"));
    v.push(String::from_str("Pullback"));
    v.push(String::from_str("MeanReversion"));
    v
}

impl L4Setups {
    /// The settings of the default value.
    pub open spec fn is_default(self) -> bool {
        &&& self.enabled@.len() == 7
        &&& self.priority@.len() == 7
        &&& forall|i: int| 0 <= i < 7 ==> #[trigger] self.enabled@[i]@ == all_setups()[i]
        &&& forall|i: int| 0 <= i < 7 ==> #[trigger] self.priority@[i]@ == all_setups()[i]
    }
}

impl Default for L4Setups {
    fn default() -> (s: Self)
        ensures
            s.is_default(),
    {
        L4Setups { enabled: setup_names(), priority: setup_names() }
    }
}

/// The regimes under which the mean-reversion setup may fire.
#[derive(Debug, Clone, PartialEq, Eq)]
pub struct L4PcMeanReversion {
    pub regimes: Vec<String>,
}

/// The regimes under which the scalp setup may fire.
#[derive(Debug, Clone, PartialEq, Eq)]
pub struct L4PcScalp {
    pub regimes: Vec<String>,
}

/// The regimes under which the liquidity-squeeze setup may fire.
#[derive(Debug, Clone, PartialEq, Eq)]
pub struct L4PcSqueeze {
    pub regimes: Vec<String>,
}

/// Per-setup preconditions: the regime gates (the numeric thresholds are
/// carried beside this value by the caller).
#[derive(Debug, Clone, PartialEq, Eq)]
pub struct L4Preconditions {
    pub mean_reversion: L4PcMeanReversion,
    pub scalp: L4PcScalp,
    pub liquidity_squeeze: L4PcSqueeze,
}

/// The view of a list of names.
pub open spec fn names_view(v: Seq<String>) -> Seq<Seq<char>> {
    v.map_values(|s: String| s@)
}

fn two_names(a: &str, b: &str) -> (v: Vec<String>)
    ensures
        names_view(v@) == seq![a@, b@],
{
    let mut v: Vec<String> = Vec::new();
    v.push(String::from_str(a));
    v.push(String::from_str(b));
    proof {
        assert(names_view(v@) =~= seq![a@, b@]);
    }
    v
}

impl L4Preconditions {
    /// The settings of the default value.
    pub open spec fn is_default(self) -> bool {
        &&& names_view(self.mean_reversion.regimes@) == seq!["Range"@, "Contraction"@]
        &&& names_view(self.scalp.regimes@) == seq!["TrendingBull"@, "TrendingBear"@]
        &&& names_view(self.liquidity_squeeze.regimes@) == seq!["Expansion"@, "Transition"@]
    }
}

impl Default for L4Preconditions {
    fn default() -> (p: Self)
        ensures
            p.is_default(),
    {
        L4Preconditions {
            mean_reversion: L4PcMeanReversion { regimes: two_names("Range", "Contraction") },
            scalp: L4PcScalp { regimes: two_names("TrendingBull", "TrendingBear") },
            liquidity_squeeze: L4PcSqueeze { regimes: two_names("Expansion", "Transition") },
        }
    }
}

/// The setup layer's settings held here.
#[derive(Debug, Clone, PartialEq, Eq)]
pub struct L4Params {
    pub setups: L4Setups,
    pub preconditions: L4Preconditions,
}

impl L4Params {
    /// The settings of the default value.
    pub open spec fn is_default(self) -> bool {
        &&& self.setups.is_default()
        &&& self.preconditions.is_default()
    }
}

impl Default for L4Params {
    fn default() -> (p: Self)
        ensures
            p.is_default(),
    {
        L4Params { setups: L4Setups::default(), preconditions: L4Preconditions::default() }
    }
}

// ---------------------------------------------------------------------
// Trade automation
// ---------------------------------------------------------------------

/// Setup intake gates.
#[derive(Debug, Clone, PartialEq, Eq)]
pub struct TaeIntake {
    /// The minimum net reward-to-risk is not negative.
    pub min_net_rr_valid: bool,
    pub max_setup_age_bars: Option<u32>,
    pub confirmation_bars: u32,
    /// Setup kinds that are never executed.
    pub execution_veto: Vec<String>,
    pub direction_policy: String,
    /// The UTC trading-hours window, when restricted.
    pub trading_hours_utc: Option<String>,
}

impl TaeIntake {
    /// The settings of the default value.
    pub open spec fn is_default(self) -> bool {
        &&& self.min_net_rr_valid
        &&& self.max_setup_age_bars is None
        &&& self.confirmation_bars == 0
        &&& self.execution_veto@.len() == 0
        &&& self.direction_policy@ == "both"@
        &&& self.trading_hours_utc is None
    }
}

impl Default for TaeIntake {
    fn default() -> (i: Self)
        ensures
            i.is_default(),
    {
        TaeIntake {
            min_net_rr_valid: true,
            max_setup_age_bars: None,
            confirmation_bars: 0,
            execution_veto: Vec::new(),
            direction_policy: String::from_str("both"),
            trading_hours_utc: None,
        }
    }
}

/// Pending-entry and position lifecycle.
#[derive(Debug, Clone, PartialEq, Eq)]
pub struct TaeLifecycle {
    pub max_open_positions: u32,
    pub pending_entry_expiry_bars: Option<u32>,
    pub reentry_cooldown_bars: u32,
    /// `cancel_and_adopt` or `cancel`.
    pub replace_policy: String,
    /// The minimum re-price delta (in ATR multiples) is not negative.
    pub min_reprice_delta_atr_valid: bool,
}

impl TaeLifecycle {
    /// The settings of the default value.
    pub open spec fn is_default(self) -> bool {
        &&& self.max_open_positions == 10
        &&& self.pending_entry_expiry_bars is None
        &&& self.reentry_cooldown_bars == 1
        &&& self.replace_policy@ == "cancel_and_adopt"@
        &&& self.min_reprice_delta_atr_valid
    }
}

impl Default for TaeLifecycle {
    fn default() -> (l: Self)
        ensures
            l.is_default(),
    {
        TaeLifecycle {
            max_open_positions: 10,
            pending_entry_expiry_bars: None,
            reentry_cooldown_bars: 1,
            replace_policy: String::from_str("cancel_and_adopt"),
            min_reprice_delta_atr_valid: true,
        }
    }
}

/// Position sizing.
#[derive(Debug, Clone, Copy, PartialEq, Eq)]
pub struct TaeSizing {
    /// The allocation percentage lies in `1..=100`.
    pub allocation_pct_valid: bool,
}

impl TaeSizing {
    /// The settings of the default value.
    pub open spec fn is_default(self) -> bool {
        &&& self.allocation_pct_valid
    }
}

impl Default for TaeSizing {
    fn default() -> (s: Self)
        ensures
            s.is_default(),
    {
        TaeSizing { allocation_pct_valid: true }
    }
}

/// Entry and take-profit placement.
#[derive(Debug, Clone, PartialEq, Eq)]
pub struct TaeExecution {
    /// `zone_midpoint`, `zone_edge`, `zone_any`, `market_on_ready` or `chase`.
    pub entry_mode: String,
    /// The spread gate, when set, is not negative.
    pub spread_gate_bps_valid: bool,
    /// `take_better` or `cancel`.
    pub instant_fill_policy: String,
    /// The chase distance (in ATR multiples) is positive.
    pub chase_max_atr_valid: bool,
    /// The chase score floor lies in `0..=100`.
    pub chase_score_floor_valid: bool,
    /// `zone_near_edge`, `zone_midpoint` or `zone_far_edge`.
    pub tp_placement: String,
}

impl TaeExecution {
    /// The settings of the default value.
    pub open spec fn is_default(self) -> bool {
        &&& self.entry_mode@ == "zone_midpoint"@
        &&& self.spread_gate_bps_valid
        &&& self.instant_fill_policy@ == "take_better"@
        &&& self.chase_max_atr_valid
        &&& self.chase_score_floor_valid
        &&& self.tp_placement@ == "zone_midpoint"@
    }
}

impl Default for TaeExecution {
    fn default() -> (e: Self)
        ensures
            e.is_default(),
    {
        TaeExecution {
            entry_mode: String::from_str("zone_midpoint"),
            spread_gate_bps_valid: true,
            instant_fill_policy: String::from_str("take_better"),
            chase_max_atr_valid: true,
            chase_score_floor_valid: true,
            tp_placement: String::from_str("zone_midpoint"),
        }
    }
}

/// Exit, stop-loss and setup-gone management.
#[derive(Debug, Clone, PartialEq, Eq)]
pub struct TaeRisk {
    pub invalidate_on: Vec<String>,
    pub time_stop_bars: Option<u32>,
    /// `market` or `pullback`.
    pub signal_exit: String,
    /// `balanced`, `strict` or `risky`.
    pub setup_gone_policy: String,
    /// The take-profit refresh delta is not negative.
    pub tp_refresh_min_rr_delta_valid: bool,
    /// `invalidation`, `invalidation_padded` or `atr_anchored`.
    pub sl_mode: String,
    /// The stop-loss ATR padding is not negative.
    pub sl_padding_atr_valid: bool,
    /// The ATR anchor multiplier is at least one tenth.
    pub atr_anchor_mult_valid: bool,
    /// The minimum stop distance, when set, is not negative.
    pub min_sl_atr_valid: bool,
    /// The confidence-drop threshold, when set, lies in `0..=100`.
    pub confidence_drop_pct_valid: bool,
    /// `l6_formula`, `atr_mult` or `zone_only`.
    pub stop_floor_source: String,
}

impl TaeRisk {
    /// The settings of the default value.
    pub open spec fn is_default(self) -> bool {
        &&& self.invalidate_on@.len() == 1
        &&& self.invalidate_on@[0]@ == "direction_flip"@
        &&& self.time_stop_bars is None
        &&& self.signal_exit@ == "market"@
        &&& self.setup_gone_policy@ == "balanced"@
        &&& self.tp_refresh_min_rr_delta_valid
        &&& self.sl_mode@ == "invalidation"@
        &&& self.sl_padding_atr_valid
        &&& self.atr_anchor_mult_valid
        &&& self.min_sl_atr_valid
        &&& self.confidence_drop_pct_valid
        &&& self.stop_floor_source@ == "l6_formula"@
    }
}

impl Default for TaeRisk {
    fn default() -> (r: Self)
        ensures
            r.is_default(),
    {
        let mut invalidate_on: Vec<String> = Vec::new();
        invalidate_on.push(String::from_str("direction_flip"));
        TaeRisk {
            invalidate_on,
            time_stop_bars: None,
            signal_exit: String::from_str("market"),
            setup_gone_policy: String::from_str("balanced"),
            tp_refresh_min_rr_delta_valid: true,
            sl_mode: String::from_str("invalidation"),
            sl_padding_atr_valid: true,
            atr_anchor_mult_valid: true,
            min_sl_atr_valid: true,
            confidence_drop_pct_valid: true,
            stop_floor_source: String::from_str("l6_formula"),
        }
    }
}

/// Crash-recovery window for stale persisted state (`None` = no limit).
#[derive(Debug, Clone, Copy, PartialEq, Eq)]
pub struct TaeRecovery {
    pub stale_state_window_secs: Option<u64>,
}

impl TaeRecovery {
    /// The settings of the default value.
    pub open spec fn is_default(self) -> bool {
        &&& self.stale_state_window_secs is None
    }
}

impl Default for TaeRecovery {
    fn default() -> (r: Self)
        ensures
            r.is_default(),
    {
        TaeRecovery { stale_state_window_secs: None }
    }
}

/// Trade-automation policy.
#[derive(Debug, Clone, PartialEq, Eq)]
pub struct TaeParams {
    pub intake: TaeIntake,
    pub lifecycle: TaeLifecycle,
    pub sizing: TaeSizing,
    pub execution: TaeExecution,
    pub risk: TaeRisk,
    pub recovery: TaeRecovery,
}

impl TaeParams {
    /// The settings of the default value.
    pub open spec fn is_default(self) -> bool {
        &&& self.intake.is_default()
        &&& self.lifecycle.is_default()
        &&& self.sizing.is_default()
        &&& self.execution.is_default()
        &&& self.risk.is_default()
        &&& self.recovery.is_default()
    }
}

impl Default for TaeParams {
    fn default() -> (t: Self)
        ensures
            t.is_default(),
    {
        TaeParams {
            intake: TaeIntake::default(),
            lifecycle: TaeLifecycle::default(),
            sizing: TaeSizing::default(),
            execution: TaeExecution::default(),
            risk: TaeRisk::default(),
            recovery: TaeRecovery::default(),
        }
    }
}

// ---------------------------------------------------------------------
// Portfolio management and analytics
// ---------------------------------------------------------------------

/// Which exposure limits are enforced (rather than only displayed).
#[derive(Debug, Clone, Copy, PartialEq, Eq)]
pub struct PmeEnforce {
    pub single_pair: bool,
    pub portfolio: bool,
    pub correlation: bool,
}

impl PmeEnforce {
    /// The settings of the default value.
    pub open spec fn is_default(self) -> bool {
        &&& !self.single_pair
        &&& !self.portfolio
        &&& !self.correlation
    }
}

impl Default for PmeEnforce {
    fn default() -> (e: Self)
        ensures
            e.is_default(),
    {
        PmeEnforce { single_pair: false, portfolio: false, correlation: false }
    }
}

/// Exposure-layer settings held here.
#[derive(Debug, Clone, Copy, PartialEq, Eq)]
pub struct PmeExposure {
    pub enforce: PmeEnforce,
}

/// Portfolio-management settings held here.
#[derive(Debug, Clone, Copy, PartialEq, Eq)]
pub struct PmeParams {
    pub exposure: PmeExposure,
    pub enforce_systemic_veto: bool,
}

impl PmeParams {
    /// The settings of the default value.
    pub open spec fn is_default(self) -> bool {
        &&& self.exposure.enforce.is_default()
        &&& !self.enforce_systemic_veto
    }
}

impl Default for PmeParams {
    fn default() -> (p: Self)
        ensures
            p.is_default(),
    {
        PmeParams { exposure: PmeExposure { enforce: PmeEnforce::default() }, enforce_systemic_veto: false }
    }
}

/// Edge-verdict significance settings.
#[derive(Debug, Clone, Copy, PartialEq, Eq)]
pub struct PaeVerdict {
    /// The significance level lies in `(0, 1]`.
    pub alpha_valid: bool,
    pub monte_carlo_runs: u32,
    pub min_trades_for_verdict: u32,
}

impl PaeVerdict {
    /// The settings of the default value.
    pub open spec fn is_default(self) -> bool {
        &&& self.alpha_valid
        &&& self.monte_carlo_runs == 10_000
        &&& self.min_trades_for_verdict == 30
    }
}

impl Default for PaeVerdict {
    fn default() -> (v: Self)
        ensures
            v.is_default(),
    {
        PaeVerdict { alpha_valid: true, monte_carlo_runs: 10_000, min_trades_for_verdict: 30 }
    }
}

/// Minimum trades per regime before a regime breakdown is reported.
#[derive(Debug, Clone, Copy, PartialEq, Eq)]
pub struct PaeRegimes {
    pub min_regime_sample_trades: u32,
}

impl PaeRegimes {
    /// The settings of the default value.
    pub open spec fn is_default(self) -> bool {
        &&& self.min_regime_sample_trades == 5
    }
}

impl Default for PaeRegimes {
    fn default() -> (r: Self)
        ensures
            r.is_default(),
    {
        PaeRegimes { min_regime_sample_trades: 5 }
    }
}

/// Analytics settings held here.
#[derive(Debug, Clone, Copy, PartialEq, Eq)]
pub struct PaeParams {
    pub verdict: PaeVerdict,
    pub regimes: PaeRegimes,
}

impl PaeParams {
    /// The settings of the default value.
    pub open spec fn is_default(self) -> bool {
        &&& self.verdict.is_default()
        &&& self.regimes.is_default()
    }
}

impl Default for PaeParams {
    fn default() -> (p: Self)
        ensures
            p.is_default(),
    {
        PaeParams { verdict: PaeVerdict::default(), regimes: PaeRegimes::default() }
    }
}

// ---------------------------------------------------------------------
// Ladder roles
// ---------------------------------------------------------------------

/// Timeframe role separation: which duration label decides, enters, stops
/// and targets.
#[derive(Debug, Clone, PartialEq, Eq)]
pub struct LadderRoles {
    pub enabled: bool,
    pub decision_tf: String,
    pub entry_tf: String,
    pub stop_tf: String,
    pub target_tf: String,
}

impl LadderRoles {
    /// The settings of the default value.
    pub open spec fn is_default(self) -> bool {
        &&& !self.enabled
        &&& self.decision_tf@ == "1d"@
        &&& self.entry_tf@ == "1s"@
        &&& self.stop_tf@ == "1d"@
        &&& self.target_tf@ == "1s"@
    }
}

impl Default for LadderRoles {
    /// Decision and stop anchor on the slowest duration of the pool, entry
    /// and target on the fastest; role separation is off.
    fn default() -> (r: Self)
        ensures
            r.is_default(),
    {
        LadderRoles {
            enabled: false,
            decision_tf: String::from_str("1d"),
            entry_tf: String::from_str("1s"),
            stop_tf: String::from_str("1d"),
            target_tf: String::from_str("1s"),
        }
    }
}

/// One of the four ladder roles.
#[derive(Debug, Clone, Copy, PartialEq, Eq)]
pub enum LadderRole {
    DecisionTf,
    EntryTf,
    StopTf,
    TargetTf,
}

// ---------------------------------------------------------------------
// The strategy
// ---------------------------------------------------------------------

/// The schema version this library reads.
pub const SCHEMA_VERSION: u32 = 1;

/// One named model. `base` names the strategy it patches.
#[derive(Debug, Clone, PartialEq, Eq)]
pub struct StrategyConfig {
    pub schema_version: u32,
    pub name: String,
    pub base: Option<String>,
    pub description: String,
    pub l1_5: L1_5Params,
    pub l2: L2Params,
    pub l4: L4Params,
    pub tae: TaeParams,
    pub pme: PmeParams,
    pub pae: PaeParams,
    pub ladder_roles: LadderRoles,
}

/// The text of the built-in baseline strategy's description.
pub open spec fn baseline_description() -> Seq<char> {
    "The platform baseline model — reproduces v8.2 behavior exactly."@
}

impl StrategyConfig {
    /// The settings of the default value.
    pub open spec fn is_default(self) -> bool {
        &&& self.schema_version == SCHEMA_VERSION
        &&& self.name@ == "default"@
        &&& self.base is None
        &&& self.description@ == baseline_description()
        &&& self.l1_5.is_default()
        &&& self.l2.is_default()
        &&& self.l4.is_default()
        &&& self.tae.is_default()
        &&& self.pme.is_default()
        &&& self.pae.is_default()
        &&& self.ladder_roles.is_default()
    }
}

impl Default for StrategyConfig {
    /// The built-in `default` strategy.
    fn default() -> (s: Self)
        ensures
            s.is_default(),
            strategy_problems(s) == Seq::<StrategyProblem>::empty(),
    {
        let s = StrategyConfig {
            schema_version: SCHEMA_VERSION,
            name: String::from_str("default"),
            base: None,
            description: String::from_str("The platform baseline model — reproduces v8.2 behavior exactly."),
            l1_5: L1_5Params::default(),
            l2: L2Params::default(),
            l4: L4Params::default(),
            tae: TaeParams::default(),
            pme: PmeParams::default(),
            pae: PaeParams::default(),
            ladder_roles: LadderRoles::default(),
        };
        proof {
            reveal_strlit("default");
            let n = s.name@;
            assert(n[0] == 'd' && n.last() == 't');
            assert(trim_start_seq(n) == n);
            assert(trim_seq(n) == n);
            assert forall|j: int| 0 <= j < CHECK_COUNT implies !(#[trigger] strategy_check(s, j)).0 by {}
            lemma_sound_strategy(s);
        }
        s
    }
}

// ---------------------------------------------------------------------
// Validation
// ---------------------------------------------------------------------

/// A structural or coherence problem of a strategy.
#[derive(Debug, Clone, Copy, PartialEq, Eq)]
pub enum StrategyProblem {
    SchemaVersion(u32),
    EmptyName,
    MinNetRr,
    AllocationPct,
    SetupGonePolicy,
    EntryMode,
    InstantFillPolicy,
    ReplacePolicy,
    SlMode,
    TpPlacement,
    TpRefreshMinRrDelta,
    SlPaddingAtr,
    AtrAnchorMult,
    MinSlAtr,
    ConfidenceDropPct,
    ChaseMaxAtr,
    ChaseScoreFloor,
    MinRepriceDeltaAtr,
    SpreadGateBps,
    PaeAlpha,
}

impl StrategyProblem {
    /// The human-readable text of the problem.
    pub open spec fn text(self) -> Seq<char> {
        match self {
            StrategyProblem::SchemaVersion(v) => "schema_version "@ + decimal_text(v as nat) + " unsupported (expected 1)"@,
            StrategyProblem::EmptyName => "strategy name must not be empty"@,
            StrategyProblem::MinNetRr => "tae.intake.min_net_rr must be ≥ 0"@,
            StrategyProblem::AllocationPct => "tae.sizing.allocation_pct must be 1..=100"@,
            StrategyProblem::SetupGonePolicy => "tae.risk.setup_gone_policy must be one of [\"balanced\", \"strict\", \"risky\"]"@,
            StrategyProblem::EntryMode => "tae.execution.entry_mode must be one of [\"zone_midpoint\", \"zone_edge\", \"zone_any\", \"market_on_ready\", \"chase\"]"@,
            StrategyProblem::InstantFillPolicy => "tae.execution.instant_fill_policy must be one of [\"take_better\", \"cancel\"]"@,
            StrategyProblem::ReplacePolicy => "tae.lifecycle.replace_policy must be one of [\"cancel_and_adopt\", \"cancel\"]"@,
            StrategyProblem::SlMode => "tae.risk.sl_mode must be one of [\"invalidation\", \"invalidation_padded\", \"atr_anchored\"]"@,
            StrategyProblem::TpPlacement => "tae.execution.tp_placement must be one of [\"zone_near_edge\", \"zone_midpoint\", \"zone_far_edge\"]"@,
            StrategyProblem::TpRefreshMinRrDelta => "tae.risk.tp_refresh_min_rr_delta must be ≥ 0"@,
            StrategyProblem::SlPaddingAtr => "tae.risk.sl_padding_atr must be ≥ 0"@,
            StrategyProblem::AtrAnchorMult => "tae.risk.atr_anchor_mult must be ≥ 0.1"@,
            StrategyProblem::MinSlAtr => "tae.risk.min_sl_atr must be ≥ 0"@,
            StrategyProblem::ConfidenceDropPct => "tae.risk.confidence_drop_pct must be 0..=100"@,
            StrategyProblem::ChaseMaxAtr => "tae.execution.chase_max_atr must be > 0"@,
            StrategyProblem::ChaseScoreFloor => "tae.execution.chase_score_floor must be 0..=100"@,
            StrategyProblem::MinRepriceDeltaAtr => "tae.lifecycle.min_reprice_delta_atr must be ≥ 0"@,
            StrategyProblem::SpreadGateBps => "tae.execution.spread_gate_bps must be ≥ 0"@,
            StrategyProblem::PaeAlpha => "pae.verdict.alpha must be in (0, 1]"@,
        }
    }

    /// The human-readable text of the problem.
    pub fn message(&self) -> (m: String)
        ensures
            m@ == self.text(),
    {
        match self {
            StrategyProblem::SchemaVersion(v) => {
                let mut text: Vec<char> = chars_of("schema_version ");
                push_decimal(&mut text, *v as u64);
                let mut m = string_from_chars(&text);
                m.append(" unsupported (expected 1)");
                m
            },
            StrategyProblem::EmptyName => String::from_str("strategy name must not be empty"),
            StrategyProblem::MinNetRr => String::from_str("tae.intake.min_net_rr must be ≥ 0"),
            StrategyProblem::AllocationPct => String::from_str("tae.sizing.allocation_pct must be 1..=100"),
            StrategyProblem::SetupGonePolicy => String::from_str("tae.risk.setup_gone_policy must be one of [\"balanced\", \"strict\", \"risky\"]"),
            StrategyProblem::EntryMode => String::from_str("tae.execution.entry_mode must be one of [\"zone_midpoint\", \"zone_edge\", \"zone_any\", \"market_on_ready\", \"chase\"]"),
            StrategyProblem::InstantFillPolicy => String::from_str("tae.execution.instant_fill_policy must be one of [\"take_better\", \"cancel\"]"),
            StrategyProblem::ReplacePolicy => String::from_str("tae.lifecycle.replace_policy must be one of [\"cancel_and_adopt\", \"cancel\"]"),
            StrategyProblem::SlMode => String::from_str("tae.risk.sl_mode must be one of [\"invalidation\", \"invalidation_padded\", \"atr_anchored\"]"),
            StrategyProblem::TpPlacement => String::from_str("tae.execution.tp_placement must be one of [\"zone_near_edge\", \"zone_midpoint\", \"zone_far_edge\"]"),
            StrategyProblem::TpRefreshMinRrDelta => String::from_str("tae.risk.tp_refresh_min_rr_delta must be ≥ 0"),
            StrategyProblem::SlPaddingAtr => String::from_str("tae.risk.sl_padding_atr must be ≥ 0"),
            StrategyProblem::AtrAnchorMult => String::from_str("tae.risk.atr_anchor_mult must be ≥ 0.1"),
            StrategyProblem::MinSlAtr => String::from_str("tae.risk.min_sl_atr must be ≥ 0"),
            StrategyProblem::ConfidenceDropPct => String::from_str("tae.risk.confidence_drop_pct must be 0..=100"),
            StrategyProblem::ChaseMaxAtr => String::from_str("tae.execution.chase_max_atr must be > 0"),
            StrategyProblem::ChaseScoreFloor => String::from_str("tae.execution.chase_score_floor must be 0..=100"),
            StrategyProblem::MinRepriceDeltaAtr => String::from_str("tae.lifecycle.min_reprice_delta_atr must be ≥ 0"),
            StrategyProblem::SpreadGateBps => String::from_str("tae.execution.spread_gate_bps must be ≥ 0"),
            StrategyProblem::PaeAlpha => String::from_str("pae.verdict.alpha must be in (0, 1]"),
        }
    }
}

/// The recognised setup-gone postures.
pub open spec fn known_setup_gone_policy(v: Seq<char>) -> bool {
    v == "balanced"@ || v == "strict"@ || v == "risky"@
}

/// The recognised entry modes.
pub open spec fn known_entry_mode(v: Seq<char>) -> bool {
    v == "zone_midpoint"@ || v == "zone_edge"@ || v == "zone_any"@ || v == "market_on_ready"@
        || v == "chase"@
}

/// The recognised instant-fill policies.
pub open spec fn known_instant_fill_policy(v: Seq<char>) -> bool {
    v == "take_better"@ || v == "cancel"@
}

/// The recognised replace policies.
pub open spec fn known_replace_policy(v: Seq<char>) -> bool {
    v == "cancel_and_adopt"@ || v == "cancel"@
}

/// The recognised stop-loss modes.
pub open spec fn known_sl_mode(v: Seq<char>) -> bool {
    v == "invalidation"@ || v == "invalidation_padded"@ || v == "atr_anchored"@
}

/// The recognised take-profit placements.
pub open spec fn known_tp_placement(v: Seq<char>) -> bool {
    v == "zone_near_edge"@ || v == "zone_midpoint"@ || v == "zone_far_edge"@
}

/// `p` when `c` holds, nothing otherwise.
pub open spec fn reported_if(c: bool, p: StrategyProblem) -> Seq<StrategyProblem> {
    if c {
        seq![p]
    } else {
        Seq::empty()
    }
}

/// Check `k` of a strategy (in check order): whether the problem is
/// present, and the problem.
pub open spec fn strategy_check(s: StrategyConfig, k: int) -> (bool, StrategyProblem) {
    if k == 0 {
        (s.schema_version != SCHEMA_VERSION, StrategyProblem::SchemaVersion(s.schema_version))
    } else if k == 1 {
        (trim_seq(s.name@).len() == 0, StrategyProblem::EmptyName)
    } else if k == 2 {
        (!s.tae.intake.min_net_rr_valid, StrategyProblem::MinNetRr)
    } else if k == 3 {
        (!s.tae.sizing.allocation_pct_valid, StrategyProblem::AllocationPct)
    } else if k == 4 {
        (!known_setup_gone_policy(s.tae.risk.setup_gone_policy@), StrategyProblem::SetupGonePolicy)
    } else if k == 5 {
        (!known_entry_mode(s.tae.execution.entry_mode@), StrategyProblem::EntryMode)
    } else if k == 6 {
        (!known_instant_fill_policy(s.tae.execution.instant_fill_policy@), StrategyProblem::InstantFillPolicy)
    } else if k == 7 {
        (!known_replace_policy(s.tae.lifecycle.replace_policy@), StrategyProblem::ReplacePolicy)
    } else if k == 8 {
        (!known_sl_mode(s.tae.risk.sl_mode@), StrategyProblem::SlMode)
    } else if k == 9 {
        (!known_tp_placement(s.tae.execution.tp_placement@), StrategyProblem::TpPlacement)
    } else if k == 10 {
        (!s.tae.risk.tp_refresh_min_rr_delta_valid, StrategyProblem::TpRefreshMinRrDelta)
    } else if k == 11 {
        (!s.tae.risk.sl_padding_atr_valid, StrategyProblem::SlPaddingAtr)
    } else if k == 12 {
        (!s.tae.risk.atr_anchor_mult_valid, StrategyProblem::AtrAnchorMult)
    } else if k == 13 {
        (!s.tae.risk.min_sl_atr_valid, StrategyProblem::MinSlAtr)
    } else if k == 14 {
        (!s.tae.risk.confidence_drop_pct_valid, StrategyProblem::ConfidenceDropPct)
    } else if k == 15 {
        (!s.tae.execution.chase_max_atr_valid, StrategyProblem::ChaseMaxAtr)
    } else if k == 16 {
        (!s.tae.execution.chase_score_floor_valid, StrategyProblem::ChaseScoreFloor)
    } else if k == 17 {
        (!s.tae.lifecycle.min_reprice_delta_atr_valid, StrategyProblem::MinRepriceDeltaAtr)
    } else if k == 18 {
        (!s.tae.execution.spread_gate_bps_valid, StrategyProblem::SpreadGateBps)
    } else {
        (!s.pae.verdict.alpha_valid, StrategyProblem::PaeAlpha)
    }
}

/// Number of checks.
pub const CHECK_COUNT: usize = 20;

/// The problems found by the first `k` checks, in order.
pub open spec fn problems_before(s: StrategyConfig, k: int) -> Seq<StrategyProblem>
    decreases k,
{
    if k <= 0 {
        Seq::empty()
    } else {
        problems_before(s, k - 1) + reported_if(strategy_check(s, k - 1).0, strategy_check(s, k - 1).1)
    }
}

/// The problems of a strategy, in the order they are checked.
pub open spec fn strategy_problems(s: StrategyConfig) -> Seq<StrategyProblem> {
    problems_before(s, CHECK_COUNT as int)
}

proof fn lemma_no_problems_before(s: StrategyConfig, k: int)
    requires
        0 <= k <= CHECK_COUNT,
        forall|j: int| 0 <= j < k ==> !(#[trigger] strategy_check(s, j)).0,
    ensures
        problems_before(s, k) == Seq::<StrategyProblem>::empty(),
    decreases k,
{
    if k > 0 {
        lemma_no_problems_before(s, k - 1);
        assert(!strategy_check(s, k - 1).0);
    }
}

/// A strategy whose checks all pass has no problems.
pub proof fn lemma_sound_strategy(s: StrategyConfig)
    requires
        forall|j: int| 0 <= j < CHECK_COUNT ==> !(#[trigger] strategy_check(s, j)).0,
    ensures
        strategy_problems(s) == Seq::<StrategyProblem>::empty(),
{
    lemma_no_problems_before(s, CHECK_COUNT as int);
}

/// Check `k` is the only check that can report `p`.
proof fn lemma_problem_from_its_check(s: StrategyConfig, k: int, p: StrategyProblem, n: int)
    requires
        0 <= k < CHECK_COUNT,
        strategy_check(s, k).1 == p,
        0 <= n <= CHECK_COUNT,
        forall|j: int| 0 <= j < CHECK_COUNT && j != k ==> (#[trigger] strategy_check(s, j)).1 != p,
    ensures
        problems_before(s, n).contains(p) <==> (k < n && strategy_check(s, k).0),
    decreases n,
{
    if n > 0 {
        lemma_problem_from_its_check(s, k, p, n - 1);
        let c = strategy_check(s, n - 1);
        let prev = problems_before(s, n - 1);
        let r = reported_if(c.0, c.1);
        assert(problems_before(s, n) == prev + r);
        if prev.contains(p) {
            let w = choose|w: int| 0 <= w < prev.len() && prev[w] == p;
            assert((prev + r)[w] == p);
        }
        if c.0 && c.1 == p {
            assert((prev + r)[prev.len() as int] == p);
        }
        if (prev + r).contains(p) {
            let w = choose|w: int| 0 <= w < (prev + r).len() && (prev + r)[w] == p;
            if w >= prev.len() {
                assert(r[w - prev.len()] == p);
            } else {
                assert(prev[w] == p);
            }
        }
    }
}

/// The stop-loss mode is reported exactly when it is none of
/// `invalidation`, `invalidation_padded` and `atr_anchored`.
pub proof fn lemma_sl_mode_reported(s: StrategyConfig)
    ensures
        strategy_problems(s).contains(StrategyProblem::SlMode) <==> !(s.tae.risk.sl_mode@ == "invalidation"@
            || s.tae.risk.sl_mode@ == "invalidation_padded"@ || s.tae.risk.sl_mode@ == "atr_anchored"@),
{
    assert forall|j: int| 0 <= j < CHECK_COUNT && j != 8 implies (#[trigger] strategy_check(s, j)).1
        != StrategyProblem::SlMode by {}
    lemma_problem_from_its_check(s, 8, StrategyProblem::SlMode, CHECK_COUNT as int);
}

/// The other enumerated settings are reported exactly when they hold none
/// of their supported values: the setup-gone posture (`balanced`, `strict`,
/// `risky`), the entry mode (`zone_midpoint`, `zone_edge`, `zone_any`,
/// `market_on_ready`, `chase`), the instant-fill policy (`take_better`,
/// `cancel`), the replace policy (`cancel_and_adopt`, `cancel`) and the
/// take-profit placement (`zone_near_edge`, `zone_midpoint`,
/// `zone_far_edge`); a schema version is reported exactly when it is not 1.
pub proof fn lemma_enumerated_settings_reported(s: StrategyConfig)
    ensures
        strategy_problems(s).contains(StrategyProblem::SchemaVersion(s.schema_version)) <==> s.schema_version != 1,
        strategy_problems(s).contains(StrategyProblem::SetupGonePolicy) <==> !(s.tae.risk.setup_gone_policy@
            == "balanced"@ || s.tae.risk.setup_gone_policy@ == "strict"@ || s.tae.risk.setup_gone_policy@
            == "risky"@),
        strategy_problems(s).contains(StrategyProblem::EntryMode) <==> !(s.tae.execution.entry_mode@
            == "zone_midpoint"@ || s.tae.execution.entry_mode@ == "zone_edge"@ || s.tae.execution.entry_mode@
            == "zone_any"@ || s.tae.execution.entry_mode@ == "market_on_ready"@ || s.tae.execution.entry_mode@
            == "chase"@),
        strategy_problems(s).contains(StrategyProblem::InstantFillPolicy) <==> !(
        s.tae.execution.instant_fill_policy@ == "take_better"@ || s.tae.execution.instant_fill_policy@
            == "cancel"@),
        strategy_problems(s).contains(StrategyProblem::ReplacePolicy) <==> !(s.tae.lifecycle.replace_policy@
            == "cancel_and_adopt"@ || s.tae.lifecycle.replace_policy@ == "cancel"@),
        strategy_problems(s).contains(StrategyProblem::TpPlacement) <==> !(s.tae.execution.tp_placement@
            == "zone_near_edge"@ || s.tae.execution.tp_placement@ == "zone_midpoint"@
            || s.tae.execution.tp_placement@ == "zone_far_edge"@),
{
    let n = CHECK_COUNT as int;
    assert forall|j: int| 0 <= j < CHECK_COUNT && j != 0 implies (#[trigger] strategy_check(s, j)).1
        != StrategyProblem::SchemaVersion(s.schema_version) by {}
    lemma_problem_from_its_check(s, 0, StrategyProblem::SchemaVersion(s.schema_version), n);
    assert forall|j: int| 0 <= j < CHECK_COUNT && j != 4 implies (#[trigger] strategy_check(s, j)).1
        != StrategyProblem::SetupGonePolicy by {}
    lemma_problem_from_its_check(s, 4, StrategyProblem::SetupGonePolicy, n);
    assert forall|j: int| 0 <= j < CHECK_COUNT && j != 5 implies (#[trigger] strategy_check(s, j)).1
        != StrategyProblem::EntryMode by {}
    lemma_problem_from_its_check(s, 5, StrategyProblem::EntryMode, n);
    assert forall|j: int| 0 <= j < CHECK_COUNT && j != 6 implies (#[trigger] strategy_check(s, j)).1
        != StrategyProblem::InstantFillPolicy by {}
    lemma_problem_from_its_check(s, 6, StrategyProblem::InstantFillPolicy, n);
    assert forall|j: int| 0 <= j < CHECK_COUNT && j != 7 implies (#[trigger] strategy_check(s, j)).1
        != StrategyProblem::ReplacePolicy by {}
    lemma_problem_from_its_check(s, 7, StrategyProblem::ReplacePolicy, n);
    assert forall|j: int| 0 <= j < CHECK_COUNT && j != 9 implies (#[trigger] strategy_check(s, j)).1
        != StrategyProblem::TpPlacement by {}
    lemma_problem_from_its_check(s, 9, StrategyProblem::TpPlacement, n);
}

/// The built-in strategy with its stop-loss mode set to any of the three
/// supported modes has no problems.
pub proof fn lemma_supported_sl_mode_clean(d: StrategyConfig, mode: String)
    requires
        d.is_default(),
        mode@ == "invalidation"@ || mode@ == "invalidation_padded"@ || mode@ == "atr_anchored"@,
    ensures
        strategy_problems(
            (StrategyConfig { tae: TaeParams { risk: TaeRisk { sl_mode: mode, ..d.tae.risk }, ..d.tae }, ..d }),
        ) == Seq::<StrategyProblem>::empty(),
{
    let s = StrategyConfig { tae: TaeParams { risk: TaeRisk { sl_mode: mode, ..d.tae.risk }, ..d.tae }, ..d };
    reveal_strlit("default");
    let n = s.name@;
    assert(n[0] == 'd' && n.last() == 't');
    assert(trim_start_seq(n) == n);
    assert(trim_seq(n) == n);
    assert forall|j: int| 0 <= j < CHECK_COUNT implies !(#[trigger] strategy_check(s, j)).0 by {}
    lemma_sound_strategy(s);
}

fn one_of(v: &str, a: &str, b: &str, c: &str) -> (r: bool)
    ensures
        r == (v@ == a@ || v@ == b@ || v@ == c@),
{
    same_text(v, a) || same_text(v, b) || same_text(v, c)
}

impl StrategyConfig {
    /// Check `k` (in check order).
    fn check(&self, k: usize) -> (c: (bool, StrategyProblem))
        requires
            k < CHECK_COUNT,
        ensures
            c == strategy_check(*self, k as int),
    {
        match k {
            0 => (self.schema_version != SCHEMA_VERSION, StrategyProblem::SchemaVersion(self.schema_version)),
            1 => (trim_chars(&chars_of(self.name.as_str())).len() == 0, StrategyProblem::EmptyName),
            2 => (!self.tae.intake.min_net_rr_valid, StrategyProblem::MinNetRr),
            3 => (!self.tae.sizing.allocation_pct_valid, StrategyProblem::AllocationPct),
            4 => (!one_of(self.tae.risk.setup_gone_policy.as_str(), "balanced", "strict", "risky"), StrategyProblem::SetupGonePolicy),
            5 => (!(one_of(self.tae.execution.entry_mode.as_str(), "zone_midpoint", "zone_edge", "zone_any") || one_of(self.tae.execution.entry_mode.as_str(), "market_on_ready", "chase", "chase")), StrategyProblem::EntryMode),
            6 => (!one_of(self.tae.execution.instant_fill_policy.as_str(), "take_better", "cancel", "cancel"), StrategyProblem::InstantFillPolicy),
            7 => (!one_of(self.tae.lifecycle.replace_policy.as_str(), "cancel_and_adopt", "cancel", "cancel"), StrategyProblem::ReplacePolicy),
            8 => (!one_of(self.tae.risk.sl_mode.as_str(), "invalidation", "invalidation_padded", "atr_anchored"), StrategyProblem::SlMode),
            9 => (!one_of(self.tae.execution.tp_placement.as_str(), "zone_near_edge", "zone_midpoint", "zone_far_edge"), StrategyProblem::TpPlacement),
            10 => (!self.tae.risk.tp_refresh_min_rr_delta_valid, StrategyProblem::TpRefreshMinRrDelta),
            11 => (!self.tae.risk.sl_padding_atr_valid, StrategyProblem::SlPaddingAtr),
            12 => (!self.tae.risk.atr_anchor_mult_valid, StrategyProblem::AtrAnchorMult),
            13 => (!self.tae.risk.min_sl_atr_valid, StrategyProblem::MinSlAtr),
            14 => (!self.tae.risk.confidence_drop_pct_valid, StrategyProblem::ConfidenceDropPct),
            15 => (!self.tae.execution.chase_max_atr_valid, StrategyProblem::ChaseMaxAtr),
            16 => (!self.tae.execution.chase_score_floor_valid, StrategyProblem::ChaseScoreFloor),
            17 => (!self.tae.lifecycle.min_reprice_delta_atr_valid, StrategyProblem::MinRepriceDeltaAtr),
            18 => (!self.tae.execution.spread_gate_bps_valid, StrategyProblem::SpreadGateBps),
            _ => (!self.pae.verdict.alpha_valid, StrategyProblem::PaeAlpha),
        }
    }

    /// Structural and coherence problems, in check order (an empty list
    /// means the strategy is sound).
    pub fn validate(&self) -> (problems: Vec<StrategyProblem>)
        ensures
            problems@ == strategy_problems(*self),
    {
        let mut p: Vec<StrategyProblem> = Vec::new();
        let mut k: usize = 0;
        while k < CHECK_COUNT
            invariant
                k <= CHECK_COUNT,
                p@ == problems_before(*self, k as int),
            decreases CHECK_COUNT - k,
        {
            let (present, problem) = self.check(k);
            if present {
                p.push(problem);
            }
            k = k + 1;
            assert(p@ =~= problems_before(*self, k as int));
        }
        p
    }
}

// ---------------------------------------------------------------------
// Inheritance chain
// ---------------------------------------------------------------------

/// A link of an inheritance chain: a declared strategy, by position, or the
/// built-in `default` strategy (used when no declared strategy is named
/// `default`).
#[derive(Debug, Clone, Copy, PartialEq, Eq)]
pub enum ChainLink {
    Declared(usize),
    BuiltinDefault,
}

/// Why a strategy cannot be resolved.
#[derive(Debug, Clone, PartialEq, Eq)]
pub enum ResolveError {
    /// No strategy has the requested name.
    NotFound(String),
    /// The chain comes back to a strategy it already passed.
    Cycle(String),
    /// The strategy names itself as its base.
    SelfInherit(String),
    /// The base named by `child` does not exist.
    BaseNotFound { base: String, child: String },
}

/// The names carried by a [`ResolveError`].
pub enum ResolveFailure {
    NotFound(Seq<char>),
    Cycle(Seq<char>),
    SelfInherit(Seq<char>),
    BaseNotFound(Seq<char>, Seq<char>),
}

impl View for ResolveError {
    type V = ResolveFailure;

    open spec fn view(&self) -> ResolveFailure {
        match self {
            ResolveError::NotFound(n) => ResolveFailure::NotFound(n@),
            ResolveError::Cycle(n) => ResolveFailure::Cycle(n@),
            ResolveError::SelfInherit(n) => ResolveFailure::SelfInherit(n@),
            ResolveError::BaseNotFound { base, child } => ResolveFailure::BaseNotFound(base@, child@),
        }
    }
}

/// Position of the first strategy, at `k` or later, named `name`.
pub open spec fn first_named_from(strats: Seq<StrategyConfig>, name: Seq<char>, k: int) -> Option<int>
    decreases strats.len() - k,
{
    if k < 0 || k >= strats.len() {
        None
    } else if strats[k].name@ == name {
        Some(k)
    } else {
        first_named_from(strats, name, k + 1)
    }
}

/// The name of a link.
pub open spec fn link_name(strats: Seq<StrategyConfig>, l: ChainLink) -> Seq<char> {
    match l {
        ChainLink::Declared(i) => strats[i as int].name@,
        ChainLink::BuiltinDefault => "default"@,
    }
}

/// The base a link names, if any (the built-in default has none).
pub open spec fn link_base(strats: Seq<StrategyConfig>, l: ChainLink) -> Option<Seq<char>> {
    match l {
        ChainLink::Declared(i) => match strats[i as int].base {
            Some(b) => Some(b@),
            None => None,
        },
        ChainLink::BuiltinDefault => None,
    }
}

/// The link a base name refers to: the first strategy of that name; for
/// `default` with no such strategy, the built-in default.
pub open spec fn base_link(strats: Seq<StrategyConfig>, b: Seq<char>) -> Option<ChainLink> {
    match first_named_from(strats, b, 0) {
        Some(i) => Some(ChainLink::Declared(i as usize)),
        None => if b == "default"@ {
            Some(ChainLink::BuiltinDefault)
        } else {
            None
        },
    }
}

/// The names of the links passed so far.
pub open spec fn chain_names(strats: Seq<StrategyConfig>, links: Seq<ChainLink>) -> Seq<Seq<char>> {
    links.map_values(|l: ChainLink| link_name(strats, l))
}

/// `ls` in front of a successful walk; a failure unchanged.
pub open spec fn prepend_links(ls: Seq<ChainLink>, r: Result<Seq<ChainLink>, ResolveFailure>) -> Result<
    Seq<ChainLink>,
    ResolveFailure,
> {
    match r {
        Ok(rest) => Ok(ls + rest),
        Err(e) => Err(e),
    }
}

/// Walks the `base` chain from `cur`, having passed the names in `seen`.
/// A chain of more than `fuel` further links necessarily repeats a name, and
/// is reported as a cycle.
pub open spec fn walk(
    strats: Seq<StrategyConfig>,
    cur: ChainLink,
    seen: Seq<Seq<char>>,
    fuel: nat,
) -> Result<Seq<ChainLink>, ResolveFailure>
    decreases fuel,
{
    match link_base(strats, cur) {
        None => Ok(seq![cur]),
        Some(b) => {
            let n = link_name(strats, cur);
            if seen.contains(n) {
                Err(ResolveFailure::Cycle(n))
            } else if b == n {
                Err(ResolveFailure::SelfInherit(n))
            } else {
                match base_link(strats, b) {
                    None => Err(ResolveFailure::BaseNotFound(b, n)),
                    Some(next) => if fuel == 0 {
                        Err(ResolveFailure::Cycle(link_name(strats, next)))
                    } else {
                        prepend_links(seq![cur], walk(strats, next, seen.push(n), (fuel - 1) as nat))
                    },
                }
            }
        },
    }
}

/// The inheritance chain of the strategy named `name`, leaf first, ending
/// at a strategy without a base.
pub open spec fn resolve_spec(strats: Seq<StrategyConfig>, name: Seq<char>) -> Result<
    Seq<ChainLink>,
    ResolveFailure,
> {
    match first_named_from(strats, name, 0) {
        None => Err(ResolveFailure::NotFound(name)),
        Some(i) => walk(strats, ChainLink::Declared(i as usize), Seq::empty(), strats.len()),
    }
}

pub(crate) proof fn lemma_first_named_in_range(strats: Seq<StrategyConfig>, name: Seq<char>, k: int)
    ensures
        first_named_from(strats, name, k) matches Some(i) ==> (k <= i < strats.len() && 0 <= i
            && strats[i].name@ == name),
    decreases strats.len() - k,
{
    if 0 <= k < strats.len() && strats[k].name@ != name {
        lemma_first_named_in_range(strats, name, k + 1);
    }
}

/// The base named by the first strategy called `name`, if it has one.
pub open spec fn declared_base(strats: Seq<StrategyConfig>, name: Seq<char>) -> Option<Seq<char>> {
    match first_named_from(strats, name, 0) {
        Some(i) => match strats[i].base {
            Some(b) => Some(b@),
            None => None,
        },
        None => None,
    }
}

/// Resolving by name fails in these ways on these inputs: an unknown name
/// is not found; a strategy whose base is its own name inherits from
/// itself; two strategies that name each other as base form a cycle,
/// reported at the requested one; a base `b` that no strategy carries
/// (other than the built-in `default`) is a missing base of the requested
/// strategy.
pub proof fn lemma_resolve_failures(strats: Seq<StrategyConfig>, name: Seq<char>, b: Seq<char>)
    requires
        strats.len() <= usize::MAX,
    ensures
        first_named_from(strats, name, 0) is None ==> resolve_spec(strats, name) == Err::<
            Seq<ChainLink>,
            ResolveFailure,
        >(ResolveFailure::NotFound(name)),
        declared_base(strats, name) == Some(name) ==> resolve_spec(strats, name) == Err::<
            Seq<ChainLink>,
            ResolveFailure,
        >(ResolveFailure::SelfInherit(name)),
        declared_base(strats, name) == Some(b) && b != name && declared_base(strats, b) == Some(name)
            ==> resolve_spec(strats, name) == Err::<Seq<ChainLink>, ResolveFailure>(
            ResolveFailure::Cycle(name),
        ),
        declared_base(strats, name) == Some(b) && b != name && first_named_from(strats, b, 0) is None
            && b != "default"@ ==> resolve_spec(strats, name) == Err::<Seq<ChainLink>, ResolveFailure>(
            ResolveFailure::BaseNotFound(b, name),
        ),
{
    lemma_first_named_in_range(strats, name, 0);
    lemma_first_named_in_range(strats, b, 0);
    if let Some(i) = first_named_from(strats, name, 0) {
        let leaf = ChainLink::Declared(i as usize);
        let empty = Seq::<Seq<char>>::empty();
        assert(link_name(strats, leaf) == name);
        assert(!empty.contains(name));
        if declared_base(strats, name) == Some(b) && b != name && declared_base(strats, b) == Some(name) {
            let j = first_named_from(strats, b, 0)->0;
            let mid = ChainLink::Declared(j as usize);
            let seen1 = empty.push(name);
            assert(i != j);
            assert(strats.len() >= 2) by {
                if strats.len() < 2 {
                    assert(i == 0 && j == 0);
                }
            }
            assert(link_name(strats, mid) == b);
            assert(!seen1.contains(b)) by {
                assert(seen1[0] == name);
            }
            assert(base_link(strats, name) == Some(leaf));
            assert(base_link(strats, b) == Some(mid));
            let seen2 = seen1.push(b);
            assert(seen2[0] == name);
            assert(seen2.contains(name));
            let f = strats.len();
            assert(walk(strats, leaf, seen2, (f - 2) as nat) == Err::<Seq<ChainLink>, ResolveFailure>(
                ResolveFailure::Cycle(name),
            ));
            assert(walk(strats, mid, seen1, (f - 1) as nat) == Err::<Seq<ChainLink>, ResolveFailure>(
                ResolveFailure::Cycle(name),
            ));
        }
    }
}

/// `next` is the link that `prev`'s base names: the first declared strategy
/// of that name or, when none is declared and the name is `default`, the
/// built-in default.
pub open spec fn follows_base(strats: Seq<StrategyConfig>, prev: ChainLink, next: ChainLink) -> bool {
    match link_base(strats, prev) {
        None => false,
        Some(b) => match first_named_from(strats, b, 0) {
            Some(k) => next == ChainLink::Declared(k as usize),
            None => b == "default"@ && next == ChainLink::BuiltinDefault,
        },
    }
}

proof fn lemma_walk_follows_bases(strats: Seq<StrategyConfig>, cur: ChainLink, seen: Seq<Seq<char>>, fuel: nat)
    ensures
        walk(strats, cur, seen, fuel) matches Ok(links) ==> {
            &&& links.len() >= 1
            &&& links[0] == cur
            &&& forall|i: int| 1 <= i < links.len() ==> follows_base(strats, links[i - 1], #[trigger] links[i])
            &&& link_base(strats, links.last()) is None
        },
    decreases fuel,
{
    if let Some(b) = link_base(strats, cur) {
        let n = link_name(strats, cur);
        if !seen.contains(n) && b != n {
            if let Some(next) = base_link(strats, b) {
                if fuel > 0 {
                    lemma_walk_follows_bases(strats, next, seen.push(n), (fuel - 1) as nat);
                    if let Ok(rest) = walk(strats, next, seen.push(n), (fuel - 1) as nat) {
                        let links = seq![cur] + rest;
                        assert(follows_base(strats, cur, next));
                        assert forall|i: int| 1 <= i < links.len() implies follows_base(
                            strats,
                            links[i - 1],
                            #[trigger] links[i],
                        ) by {
                            if i >= 2 {
                                assert(links[i - 1] == rest[i - 2]);
                                assert(links[i] == rest[i - 1]);
                            }
                        }
                        assert(links.last() == rest.last());
                    }
                }
            }
        }
    }
}

/// A resolved chain starts at the first strategy carrying the requested
/// name; each further link is the first declared strategy carrying the
/// previous link's base, the built-in default only when the base is
/// `default` and no declared strategy is named `default`; the last link has
/// no base.
pub proof fn lemma_resolved_chain(strats: Seq<StrategyConfig>, name: Seq<char>)
    ensures
        resolve_spec(strats, name) matches Ok(links) ==> {
            &&& links.len() >= 1
            &&& first_named_from(strats, name, 0) matches Some(i) && links[0] == ChainLink::Declared(i as usize)
            &&& forall|i: int| 1 <= i < links.len() ==> follows_base(strats, links[i - 1], #[trigger] links[i])
            &&& forall|i: int| 0 <= i < links.len() && #[trigger] links[i] == ChainLink::BuiltinDefault
                ==> first_named_from(strats, "default"@, 0) is None
            &&& link_base(strats, links.last()) is None
        },
{
    if let Some(i) = first_named_from(strats, name, 0) {
        let leaf = ChainLink::Declared(i as usize);
        lemma_walk_follows_bases(strats, leaf, Seq::empty(), strats.len());
        if let Ok(links) = resolve_spec(strats, name) {
            assert forall|j: int| 0 <= j < links.len() && #[trigger] links[j] == ChainLink::BuiltinDefault
                implies first_named_from(strats, "default"@, 0) is None by {
                if j == 0 {
                    assert(links[0] == leaf);
                } else {
                    assert(follows_base(strats, links[j - 1], links[j]));
                }
            }
        }
    }
}

/// Position of the first strategy named `name`.
pub fn find_named(strats: &Vec<StrategyConfig>, name: &str) -> (r: Option<usize>)
    ensures
        match r {
            Some(i) => first_named_from(strats@, name@, 0) == Some(i as int) && i < strats@.len(),
            None => first_named_from(strats@, name@, 0) is None,
        },
{
    let mut k: usize = 0;
    while k < strats.len()
        invariant
            k <= strats@.len(),
            first_named_from(strats@, name@, 0) == first_named_from(strats@, name@, k as int),
        decreases strats.len() - k,
    {
        if same_text(strats[k].name.as_str(), name) {
            return Some(k);
        }
        k = k + 1;
    }
    None
}

fn link_name_text<'a>(strats: &'a Vec<StrategyConfig>, l: ChainLink) -> (n: &'a str)
    requires
        l matches ChainLink::Declared(i) ==> i < strats@.len(),
    ensures
        n@ == link_name(strats@, l),
{
    match l {
        ChainLink::Declared(i) => strats[i].name.as_str(),
        ChainLink::BuiltinDefault => "default",
    }
}

/// The inheritance chain of the strategy named `name`: the strategy itself,
/// then its base, that base's base and so on, up to a strategy without a
/// base. A base named `default` that no declared strategy carries is the
/// built-in default. Fails on an unknown name, an unknown base, a strategy
/// that names itself, or a chain that comes back to a name it passed.
pub fn resolve_chain(strategies: &Vec<StrategyConfig>, name: &str) -> (r: Result<Vec<ChainLink>, ResolveError>)
    ensures
        match r {
            Ok(links) => resolve_spec(strategies@, name@) == Ok::<Seq<ChainLink>, ResolveFailure>(links@),
            Err(e) => resolve_spec(strategies@, name@) == Err::<Seq<ChainLink>, ResolveFailure>(e@),
        },
{
    let start = match find_named(strategies, name) {
        None => return Err(ResolveError::NotFound(String::from_str(name))),
        Some(i) => i,
    };
    let ghost strats = strategies@;
    let mut links: Vec<ChainLink> = Vec::new();
    let mut cur = ChainLink::Declared(start);
    let mut fuel: usize = strategies.len();
    assert(chain_names(strats, links@) =~= Seq::<Seq<char>>::empty());
    loop
        invariant
            strats == strategies@,
            fuel <= strategies@.len(),
            cur matches ChainLink::Declared(i) ==> i < strats.len(),
            forall|j: int| 0 <= j < links@.len() ==> (#[trigger] links@[j] matches ChainLink::Declared(i) ==> i < strats.len()),
            resolve_spec(strats, name@) == prepend_links(links@, walk(strats, cur, chain_names(strats, links@), fuel as nat)),
        decreases fuel,
    {
        let base: &str = match cur {
            ChainLink::Declared(i) => match &strategies[i].base {
                Some(b) => b.as_str(),
                None => {
                    proof {
                        assert(links@ + seq![cur] =~= links@.push(cur));
                    }
                    links.push(cur);
                    return Ok(links);
                },
            },
            ChainLink::BuiltinDefault => {
                proof {
                    assert(links@ + seq![cur] =~= links@.push(cur));
                }
                links.push(cur);
                return Ok(links);
            },
        };
        assert(link_base(strats, cur) == Some(base@));
        let n = link_name_text(strategies, cur);
        let ghost seen = chain_names(strats, links@);
        let mut j: usize = 0;
        while j < links.len()
            invariant
                j <= links@.len(),
                seen == chain_names(strats, links@),
                forall|k: int| 0 <= k < links@.len() ==> (#[trigger] links@[k] matches ChainLink::Declared(i) ==> i < strats.len()),
                strats == strategies@,
                forall|k: int| 0 <= k < j ==> seen[k] != n@,
                n@ == link_name(strats, cur),
                link_base(strats, cur) == Some(base@),
                resolve_spec(strats, name@) == prepend_links(links@, walk(strats, cur, seen, fuel as nat)),
            decreases links.len() - j,
        {
            if same_text(link_name_text(strategies, links[j]), n) {
                assert(seen[j as int] == n@);
                return Err(ResolveError::Cycle(String::from_str(n)));
            }
            j = j + 1;
        }
        assert(!seen.contains(n@));
        if same_text(base, n) {
            return Err(ResolveError::SelfInherit(String::from_str(n)));
        }
        let next = match find_named(strategies, base) {
            Some(k) => ChainLink::Declared(k),
            None => {
                if same_text(base, "default") {
                    ChainLink::BuiltinDefault
                } else {
                    return Err(
                        ResolveError::BaseNotFound { base: String::from_str(base), child: String::from_str(n) },
                    );
                }
            },
        };
        if fuel == 0 {
            return Err(ResolveError::Cycle(String::from_str(link_name_text(strategies, next))));
        }
        proof {
            let old_links = links@;
            assert(chain_names(strats, old_links.push(cur)) =~= chain_names(strats, old_links).push(n@));
            assert(old_links + seq![cur] =~= old_links.push(cur));
            assert forall|rest: Seq<ChainLink>| (old_links + (seq![cur] + rest)) =~= (old_links.push(cur) + rest) by {}
        }
        links.push(cur);
        cur = next;
        fuel = fuel - 1;
    }
}

// ---------------------------------------------------------------------
// Resolved strategies
// ---------------------------------------------------------------------

/// `a` holds every setting of `b`, the base reference aside: text and
/// numbers equal, lists equal entry by entry.
pub open spec fn same_settings(a: StrategyConfig, b: StrategyConfig) -> bool {
    &&& a.schema_version == b.schema_version
    &&& a.name == b.name
    &&& a.description == b.description
    &&& a.l1_5 == b.l1_5
    &&& a.l2 == b.l2
    &&& a.l4.setups.enabled@ == b.l4.setups.enabled@
    &&& a.l4.setups.priority@ == b.l4.setups.priority@
    &&& a.l4.preconditions.mean_reversion.regimes@ == b.l4.preconditions.mean_reversion.regimes@
    &&& a.l4.preconditions.scalp.regimes@ == b.l4.preconditions.scalp.regimes@
    &&& a.l4.preconditions.liquidity_squeeze.regimes@ == b.l4.preconditions.liquidity_squeeze.regimes@
    &&& a.tae.intake.min_net_rr_valid == b.tae.intake.min_net_rr_valid
    &&& a.tae.intake.max_setup_age_bars == b.tae.intake.max_setup_age_bars
    &&& a.tae.intake.confirmation_bars == b.tae.intake.confirmation_bars
    &&& a.tae.intake.execution_veto@ == b.tae.intake.execution_veto@
    &&& a.tae.intake.direction_policy == b.tae.intake.direction_policy
    &&& a.tae.intake.trading_hours_utc == b.tae.intake.trading_hours_utc
    &&& a.tae.lifecycle == b.tae.lifecycle
    &&& a.tae.sizing == b.tae.sizing
    &&& a.tae.execution == b.tae.execution
    &&& a.tae.risk.invalidate_on@ == b.tae.risk.invalidate_on@
    &&& a.tae.risk.time_stop_bars == b.tae.risk.time_stop_bars
    &&& a.tae.risk.signal_exit == b.tae.risk.signal_exit
    &&& a.tae.risk.setup_gone_policy == b.tae.risk.setup_gone_policy
    &&& a.tae.risk.tp_refresh_min_rr_delta_valid == b.tae.risk.tp_refresh_min_rr_delta_valid
    &&& a.tae.risk.sl_mode == b.tae.risk.sl_mode
    &&& a.tae.risk.sl_padding_atr_valid == b.tae.risk.sl_padding_atr_valid
    &&& a.tae.risk.atr_anchor_mult_valid == b.tae.risk.atr_anchor_mult_valid
    &&& a.tae.risk.min_sl_atr_valid == b.tae.risk.min_sl_atr_valid
    &&& a.tae.risk.confidence_drop_pct_valid == b.tae.risk.confidence_drop_pct_valid
    &&& a.tae.risk.stop_floor_source == b.tae.risk.stop_floor_source
    &&& a.tae.recovery == b.tae.recovery
    &&& a.pme == b.pme
    &&& a.pae == b.pae
    &&& a.ladder_roles == b.ladder_roles
}

fn copy_names(v: &Vec<String>) -> (r: Vec<String>)
    ensures
        r@ == v@,
{
    let r = v.clone();
    assert(r@ =~= v@);
    r
}

fn copy_text_option(t: &Option<String>) -> (r: Option<String>)
    ensures
        r == *t,
{
    match t {
        Some(s) => Some(s.clone()),
        None => None,
    }
}

/// A strategy holding every setting of `s`, with no base: what a
/// resolution ends with, the base chain being merged in.
pub(crate) fn finished_copy(s: &StrategyConfig) -> (r: StrategyConfig)
    ensures
        r.base is None,
        same_settings(r, *s),
{
    let l4 = L4Params {
        setups: L4Setups { enabled: copy_names(&s.l4.setups.enabled), priority: copy_names(&s.l4.setups.priority) },
        preconditions: L4Preconditions {
            mean_reversion: L4PcMeanReversion { regimes: copy_names(&s.l4.preconditions.mean_reversion.regimes) },
            scalp: L4PcScalp { regimes: copy_names(&s.l4.preconditions.scalp.regimes) },
            liquidity_squeeze: L4PcSqueeze { regimes: copy_names(&s.l4.preconditions.liquidity_squeeze.regimes) },
        },
    };
    let intake = TaeIntake {
        min_net_rr_valid: s.tae.intake.min_net_rr_valid,
        max_setup_age_bars: s.tae.intake.max_setup_age_bars,
        confirmation_bars: s.tae.intake.confirmation_bars,
        execution_veto: copy_names(&s.tae.intake.execution_veto),
        direction_policy: s.tae.intake.direction_policy.clone(),
        trading_hours_utc: copy_text_option(&s.tae.intake.trading_hours_utc),
    };
    let lifecycle = TaeLifecycle {
        max_open_positions: s.tae.lifecycle.max_open_positions,
        pending_entry_expiry_bars: s.tae.lifecycle.pending_entry_expiry_bars,
        reentry_cooldown_bars: s.tae.lifecycle.reentry_cooldown_bars,
        replace_policy: s.tae.lifecycle.replace_policy.clone(),
        min_reprice_delta_atr_valid: s.tae.lifecycle.min_reprice_delta_atr_valid,
    };
    let execution = TaeExecution {
        entry_mode: s.tae.execution.entry_mode.clone(),
        spread_gate_bps_valid: s.tae.execution.spread_gate_bps_valid,
        instant_fill_policy: s.tae.execution.instant_fill_policy.clone(),
        chase_max_atr_valid: s.tae.execution.chase_max_atr_valid,
        chase_score_floor_valid: s.tae.execution.chase_score_floor_valid,
        tp_placement: s.tae.execution.tp_placement.clone(),
    };
    let risk = TaeRisk {
        invalidate_on: copy_names(&s.tae.risk.invalidate_on),
        time_stop_bars: s.tae.risk.time_stop_bars,
        signal_exit: s.tae.risk.signal_exit.clone(),
        setup_gone_policy: s.tae.risk.setup_gone_policy.clone(),
        tp_refresh_min_rr_delta_valid: s.tae.risk.tp_refresh_min_rr_delta_valid,
        sl_mode: s.tae.risk.sl_mode.clone(),
        sl_padding_atr_valid: s.tae.risk.sl_padding_atr_valid,
        atr_anchor_mult_valid: s.tae.risk.atr_anchor_mult_valid,
        min_sl_atr_valid: s.tae.risk.min_sl_atr_valid,
        confidence_drop_pct_valid: s.tae.risk.confidence_drop_pct_valid,
        stop_floor_source: s.tae.risk.stop_floor_source.clone(),
    };
    let ladder_roles = LadderRoles {
        enabled: s.ladder_roles.enabled,
        decision_tf: s.ladder_roles.decision_tf.clone(),
        entry_tf: s.ladder_roles.entry_tf.clone(),
        stop_tf: s.ladder_roles.stop_tf.clone(),
        target_tf: s.ladder_roles.target_tf.clone(),
    };
    StrategyConfig {
        schema_version: s.schema_version,
        name: s.name.clone(),
        base: None,
        description: s.description.clone(),
        l1_5: s.l1_5,
        l2: s.l2,
        l4,
        tae: TaeParams { intake, lifecycle, sizing: s.tae.sizing, execution, risk, recovery: s.tae.recovery },
        pme: s.pme,
        pae: s.pae,
        ladder_roles,
    }
}

} // verus!
