//! Per-timeframe pipeline vocabulary: the activation set of a metrics
//! pipeline, the pipeline lifecycle state and its severity aggregate, and
//! the sequence-integrity classification of candles.
use vstd::prelude::*;

verus! {

/// Which liquidity features a pipeline runs.
#[derive(Debug, Clone, Copy, PartialEq, Eq)]
pub struct LiquidityActivation {
    pub enabled: bool,
    pub liquidation_feed: bool,
    pub cluster_estimation: bool,
    pub signals: bool,
}

impl LiquidityActivation {
    /// The settings of the default value.
    pub open spec fn is_default(self) -> bool {
        &&& self.enabled
        &&& self.liquidation_feed
        &&& self.cluster_estimation
        &&& self.signals
    }
}

impl Default for LiquidityActivation {
    /// Everything on.
    fn default() -> (a: Self)
        ensures
            a.is_default(),
    {
        LiquidityActivation { enabled: true, liquidation_feed: true, cluster_estimation: true, signals: true }
    }
}

/// The activation set of a metrics pipeline: what is switched off, and the
/// configuration revision it was derived from.
#[derive(Debug, Clone, PartialEq, Eq)]
pub struct MetricsConfig {
    pub disabled_indicators: Vec<String>,
    /// `(indicator, signal)` pairs switched off.
    pub disabled_signals: Vec<(String, String)>,
    pub disabled_signal_kinds: Vec<String>,
    pub liquidity: LiquidityActivation,
    pub config_version: u64,
}

impl MetricsConfig {
    /// The settings of the default value.
    pub open spec fn is_default(self) -> bool {
        &&& self.disabled_indicators@.len() == 0
        &&& self.disabled_signals@.len() == 0
        &&& self.disabled_signal_kinds@.len() == 0
        &&& self.liquidity.enabled
        &&& self.liquidity.liquidation_feed
        &&& self.liquidity.cluster_estimation
        &&& self.liquidity.signals
        &&& self.config_version == 0
    }
}

impl Default for MetricsConfig {
    /// Nothing disabled, all liquidity features on, revision zero.
    fn default() -> (c: Self)
        ensures
            c.is_default(),
    {
        MetricsConfig {
            disabled_indicators: Vec::new(),
            disabled_signals: Vec::new(),
            disabled_signal_kinds: Vec::new(),
            liquidity: LiquidityActivation::default(),
            config_version: 0,
        }
    }
}

/// Lifecycle state of one timeframe pipeline.
#[derive(Debug, Clone, Copy, PartialEq, Eq, Hash)]
pub enum CandlePipelineState {
    /// From construction until bootstrap returns; never published.
    Initializing,
    /// Accumulating candles towards a full buffer.
    Loading,
    /// Full buffer, connected, every indicator live.
    Live,
    /// Was live, then no completed candle within the stale threshold.
    Stale,
    /// Cold-failed; only a reload recovers it.
    Failed,
}

impl CandlePipelineState {
    /// The settings of the default value.
    pub open spec fn is_default(self) -> bool {
        &&& self == CandlePipelineState::Initializing
    }
}

impl Default for CandlePipelineState {
    fn default() -> (s: Self)
        ensures
            s.is_default(),
    {
        CandlePipelineState::Initializing
    }
}

/// Severity rank: `Failed` > `Stale` > `Loading` > `Live`; the transient
/// `Initializing` ranks with `Loading`.
pub open spec fn severity_rank(s: CandlePipelineState) -> u8 {
    match s {
        CandlePipelineState::Live => 0,
        CandlePipelineState::Loading => 1,
        CandlePipelineState::Stale => 2,
        CandlePipelineState::Failed => 3,
        CandlePipelineState::Initializing => 1,
    }
}

/// The most severe state among `states`, scanning in order from `best`: a
/// state replaces the current one only when strictly more severe.
pub open spec fn most_severe_from(states: Seq<CandlePipelineState>, best: CandlePipelineState) -> CandlePipelineState
    decreases states.len(),
{
    if states.len() == 0 {
        best
    } else {
        let s = states[0];
        let next = if severity_rank(s) > severity_rank(best) {
            s
        } else {
            best
        };
        most_severe_from(states.drop_first(), next)
    }
}

impl CandlePipelineState {
    /// Severity rank (higher is more severe).
    pub fn severity(self) -> (r: u8)
        ensures
            r == severity_rank(self),
    {
        match self {
            CandlePipelineState::Live => 0,
            CandlePipelineState::Loading => 1,
            CandlePipelineState::Stale => 2,
            CandlePipelineState::Failed => 3,
            CandlePipelineState::Initializing => 1,
        }
    }

    /// The most severe of `states` (`Live` for none); among equally severe
    /// states the first one wins.
    pub fn most_severe(states: &[CandlePipelineState]) -> (r: CandlePipelineState)
        ensures
            r == most_severe_from(states@, CandlePipelineState::Live),
            forall|i: int| 0 <= i < states@.len() ==> severity_rank(#[trigger] states@[i]) <= severity_rank(r),
            r == CandlePipelineState::Live || states@.contains(r),
    {
        let mut best = CandlePipelineState::Live;
        let mut i: usize = 0;
        proof {
            lemma_most_severe_bounds(states@, CandlePipelineState::Live);
            assert(states@.skip(0) =~= states@);
        }
        while i < states.len()
            invariant
                i <= states@.len(),
                most_severe_from(states@, CandlePipelineState::Live) == most_severe_from(
                    states@.skip(i as int),
                    best,
                ),
                best == CandlePipelineState::Live || states@.contains(best),
            decreases states.len() - i,
        {
            proof {
                assert(states@.skip(i as int).drop_first() =~= states@.skip(i + 1));
            }
            let s = states[i];
            if s.severity() > best.severity() {
                best = s;
            }
            i = i + 1;
        }
        proof {
            assert(states@.skip(i as int) =~= Seq::<CandlePipelineState>::empty());
        }
        best
    }
}

proof fn lemma_most_severe_bounds(states: Seq<CandlePipelineState>, best: CandlePipelineState)
    ensures
        severity_rank(best) <= severity_rank(most_severe_from(states, best)),
        forall|i: int| 0 <= i < states.len() ==> severity_rank(#[trigger] states[i]) <= severity_rank(
            most_severe_from(states, best),
        ),
    decreases states.len(),
{
    if states.len() > 0 {
        let s = states[0];
        let next = if severity_rank(s) > severity_rank(best) {
            s
        } else {
            best
        };
        lemma_most_severe_bounds(states.drop_first(), next);
        assert forall|i: int| 0 <= i < states.len() implies severity_rank(#[trigger] states[i]) <= severity_rank(
            most_severe_from(states, best),
        ) by {
            if i > 0 {
                assert(states[i] == states.drop_first()[i - 1]);
            }
        }
    }
}

/// Sequence classification of a candle.
#[derive(Debug, Clone, Copy, PartialEq, Eq)]
pub enum SequenceIntegrity {
    /// In chronological order and not a duplicate.
    Valid,
    /// Earlier than the preceding candle.
    OutOfOrder,
    /// Same start time as a candle already processed.
    Duplicate,
}

impl SequenceIntegrity {
    /// The settings of the default value.
    pub open spec fn is_default(self) -> bool {
        &&& self == SequenceIntegrity::Valid
    }
}

impl Default for SequenceIntegrity {
    fn default() -> (s: Self)
        ensures
            s.is_default(),
    {
        SequenceIntegrity::Valid
    }
}

} // verus!
