//! Market vocabulary shared by the liquidity, alignment and overview
//! layers: cascade and cluster classifications, liquidity signals, bias and
//! breadth levels, and the packed key of a real-liquidation bucket.
use vstd::prelude::*;
use crate::replay::{lemma_lex_total, lemma_lex_transitive, lex_less, lex_lt};
use crate::text::same_text;

verus! {

// ---------------------------------------------------------------------
// Liquidity
// ---------------------------------------------------------------------

/// Which side was liquidated.
#[derive(Debug, Clone, Copy, PartialEq, Eq)]
pub enum LiquidationSide {
    Long,
    Short,
}

/// Cascade detection state.
#[derive(Debug, Clone, Copy, PartialEq, Eq)]
pub enum CascadeState {
    /// No significant cascade activity (serialised as `NONE`).
    NoCascade,
    /// A single event exceeded the z-score threshold.
    Detected,
    /// Several events exceeded it within the rolling window.
    Sustained,
    /// Activity was elevated and has decayed.
    Exhausted,
}

/// The cascade state of a bar from its counts: `Sustained` once the
/// significant events reach the sustained count (at least one), `Detected`
/// for fewer but at least one, `Exhausted` when none were significant but
/// the bar ran hot after earlier bars, otherwise no cascade.
pub open spec fn cascade_state_spec(
    significant_events: u32,
    sustained_events: u32,
    bar_hot: bool,
    has_history: bool,
) -> CascadeState {
    let threshold = if sustained_events < 1 { 1 } else { sustained_events };
    if significant_events >= threshold {
        CascadeState::Sustained
    } else if significant_events >= 1 {
        CascadeState::Detected
    } else if bar_hot && has_history {
        CascadeState::Exhausted
    } else {
        CascadeState::NoCascade
    }
}

/// How a bar is classified: at least as many significant events as the
/// sustained count (and at least one) is a sustained cascade; fewer, but at
/// least one, a detected cascade; none, an exhausted cascade exactly when
/// the bar is hot and earlier bars were recorded, otherwise no cascade.
pub proof fn lemma_cascade_classes(significant_events: u32, sustained_events: u32, bar_hot: bool, has_history: bool)
    ensures
        significant_events >= sustained_events && significant_events >= 1 ==> cascade_state_spec(
            significant_events,
            sustained_events,
            bar_hot,
            has_history,
        ) == CascadeState::Sustained,
        1 <= significant_events < sustained_events ==> cascade_state_spec(
            significant_events,
            sustained_events,
            bar_hot,
            has_history,
        ) == CascadeState::Detected,
        significant_events == 0 && bar_hot && has_history ==> cascade_state_spec(
            significant_events,
            sustained_events,
            bar_hot,
            has_history,
        ) == CascadeState::Exhausted,
        significant_events == 0 && !(bar_hot && has_history) ==> cascade_state_spec(
            significant_events,
            sustained_events,
            bar_hot,
            has_history,
        ) == CascadeState::NoCascade,
{
}

/// More significant events never lower a sustained classification.
pub proof fn lemma_sustained_monotone(fewer: u32, more: u32, sustained_events: u32, bar_hot: bool, has_history: bool)
    requires
        fewer <= more,
        cascade_state_spec(fewer, sustained_events, bar_hot, has_history) == CascadeState::Sustained,
    ensures
        cascade_state_spec(more, sustained_events, bar_hot, has_history) == CascadeState::Sustained,
{
}

/// Classifies a bar: `significant_events` of its recent events exceeded
/// the cascade threshold, `sustained_events` is the configured count for a
/// sustained cascade, `bar_hot` says the bar's intensity exceeded the
/// exhaustion level and `has_history` that earlier bars were recorded.
pub fn classify_cascade(
    significant_events: u32,
    sustained_events: u32,
    bar_hot: bool,
    has_history: bool,
) -> (state: CascadeState)
    ensures
        state == cascade_state_spec(significant_events, sustained_events, bar_hot, has_history),
{
    let threshold: u32 = if sustained_events < 1 {
        1
    } else {
        sustained_events
    };
    if significant_events >= threshold {
        CascadeState::Sustained
    } else if significant_events >= 1 {
        CascadeState::Detected
    } else if bar_hot && has_history {
        CascadeState::Exhausted
    } else {
        CascadeState::NoCascade
    }
}

/// The cascade signal a bar raises, given its cascade state, the previous
/// bar's state, its event count and the event count that alone makes a
/// sustained cascade: a new `Detected` or `Exhausted` state raises its
/// signal once; `Sustained` raises its signal after two sustained bars in
/// a row (the previous one sustained) or when the bar alone carries enough
/// events (at least one).
pub open spec fn cascade_signal_spec(
    state: CascadeState,
    prev: Option<CascadeState>,
    event_count: u32,
    sustained_events_this_bar: u32,
) -> Option<LiquiditySignalKind> {
    match state {
        CascadeState::Detected => if prev == Some(CascadeState::Detected) {
            None
        } else {
            Some(LiquiditySignalKind::CascadeDetected)
        },
        CascadeState::Sustained => {
            let floor: u32 = if sustained_events_this_bar < 1 { 1 } else { sustained_events_this_bar };
            if prev == Some(CascadeState::Sustained) || event_count >= floor {
                Some(LiquiditySignalKind::CascadeSustained)
            } else {
                None
            }
        },
        CascadeState::Exhausted => if prev == Some(CascadeState::Exhausted) {
            None
        } else {
            Some(LiquiditySignalKind::CascadeExhausted)
        },
        CascadeState::NoCascade => None,
    }
}

/// The cascade signal of a bar (see [`cascade_signal_spec`]).
pub fn cascade_signal(
    state: CascadeState,
    prev: Option<CascadeState>,
    event_count: u32,
    sustained_events_this_bar: u32,
) -> (kind: Option<LiquiditySignalKind>)
    ensures
        kind == cascade_signal_spec(state, prev, event_count, sustained_events_this_bar),
{
    match state {
        CascadeState::Detected => match prev {
            Some(CascadeState::Detected) => None,
            _ => Some(LiquiditySignalKind::CascadeDetected),
        },
        CascadeState::Sustained => {
            let sustained_bars: u32 = match prev {
                Some(CascadeState::Sustained) => 2,
                Some(CascadeState::Detected) => 1,
                _ => 0,
            };
            let floor: u32 = if sustained_events_this_bar < 1 { 1 } else { sustained_events_this_bar };
            if sustained_bars >= 2 || event_count >= floor {
                Some(LiquiditySignalKind::CascadeSustained)
            } else {
                None
            }
        },
        CascadeState::Exhausted => match prev {
            Some(CascadeState::Exhausted) => None,
            _ => Some(LiquiditySignalKind::CascadeExhausted),
        },
        CascadeState::NoCascade => None,
    }
}

/// Position of a liquidation cluster relative to the current price.
#[derive(Debug, Clone, Copy, PartialEq, Eq)]
pub enum ClusterKind {
    AboveCurrentPrice,
    BelowCurrentPrice,
    AtCurrentPrice,
    Distant,
}

/// Where the leverage distribution assumption came from.
#[derive(Debug, Clone, Copy, PartialEq, Eq)]
pub enum LeverageDistributionSource {
    DefaultPowerLaw,
    FundingAdaptive,
    ConfigOverride,
}

/// State of the cluster refresh task of one timeframe.
#[derive(Debug, Clone, Copy, PartialEq, Eq)]
pub enum ClusterRefreshStatus {
    /// No refresh attempted yet.
    Pending,
    /// The last refresh produced a valid matrix (serialised as `OK`).
    Refreshed,
    /// The last refresh failed.
    Skipped,
    /// The last valid matrix has expired.
    Stale,
}

/// Discrete liquidity-signal kinds.
#[derive(Debug, Clone, Copy, PartialEq, Eq, Hash)]
pub enum LiquiditySignalKind {
    CascadeDetected,
    CascadeSustained,
    CascadeExhausted,
    LiquidityVacuum,
    FundingExtreme,
    OIFundingDivergence,
    MagnetActivated,
    ClusterPressureHigh,
    ClusterForwardPressure,
    FundingFlip,
    OiPriceDivergence,
}

impl LiquiditySignalKind {
    /// The wire name of the kind (screaming snake case).
    pub open spec fn wire_name(self) -> &'static str {
        match self {
            LiquiditySignalKind::CascadeDetected => "CASCADE_DETECTED",
            LiquiditySignalKind::CascadeSustained => "CASCADE_SUSTAINED",
            LiquiditySignalKind::CascadeExhausted => "CASCADE_EXHAUSTED",
            LiquiditySignalKind::LiquidityVacuum => "LIQUIDITY_VACUUM",
            LiquiditySignalKind::FundingExtreme => "FUNDING_EXTREME",
            LiquiditySignalKind::OIFundingDivergence => "OI_FUNDING_DIVERGENCE",
            LiquiditySignalKind::MagnetActivated => "MAGNET_ACTIVATED",
            LiquiditySignalKind::ClusterPressureHigh => "CLUSTER_PRESSURE_HIGH",
            LiquiditySignalKind::ClusterForwardPressure => "CLUSTER_FORWARD_PRESSURE",
            LiquiditySignalKind::FundingFlip => "FUNDING_FLIP",
            LiquiditySignalKind::OiPriceDivergence => "OI_PRICE_DIVERGENCE",
        }
    }

    /// The wire name of the kind (screaming snake case).
    pub fn as_str(&self) -> (s: &'static str)
        ensures
            s == self.wire_name(),
    {
        match self {
            LiquiditySignalKind::CascadeDetected => "CASCADE_DETECTED",
            LiquiditySignalKind::CascadeSustained => "CASCADE_SUSTAINED",
            LiquiditySignalKind::CascadeExhausted => "CASCADE_EXHAUSTED",
            LiquiditySignalKind::LiquidityVacuum => "LIQUIDITY_VACUUM",
            LiquiditySignalKind::FundingExtreme => "FUNDING_EXTREME",
            LiquiditySignalKind::OIFundingDivergence => "OI_FUNDING_DIVERGENCE",
            LiquiditySignalKind::MagnetActivated => "MAGNET_ACTIVATED",
            LiquiditySignalKind::ClusterPressureHigh => "CLUSTER_PRESSURE_HIGH",
            LiquiditySignalKind::ClusterForwardPressure => "CLUSTER_FORWARD_PRESSURE",
            LiquiditySignalKind::FundingFlip => "FUNDING_FLIP",
            LiquiditySignalKind::OiPriceDivergence => "OI_PRICE_DIVERGENCE",
        }
    }
}

/// Direction of a liquidity signal.
#[derive(Debug, Clone, Copy, PartialEq, Eq)]
pub enum LiquidityDirection {
    Bullish,
    Bearish,
    Neutral,
}

// ---------------------------------------------------------------------
// Real-liquidation bucket key
// ---------------------------------------------------------------------

/// The integer part of a price bucket of real liquidations: its signed
/// index relative to mid, its side, its event count and last update. The
/// price band and notional are kept by the holder of the floating-point
/// values.
#[derive(Debug, Clone, Copy, PartialEq, Eq)]
pub struct RealLiquidationBucket {
    pub bucket_index: i64,
    pub side: LiquidationSide,
    pub event_count: u32,
    pub last_updated_ms: u64,
}

/// The low bits that encode a side in a packed key.
pub open spec fn side_bits(side: LiquidationSide) -> i64 {
    match side {
        LiquidationSide::Long => 0,
        LiquidationSide::Short => 1,
    }
}

/// Bucket indices whose packed key keeps every bit (56 signed bits).
pub open spec fn packable_index(bucket_index: i64) -> bool {
    -0x80_0000_0000_0000 <= bucket_index < 0x80_0000_0000_0000
}

impl RealLiquidationBucket {
    /// Packs `(bucket_index, side)` into one `i64` map key: the index in
    /// the high 56 bits, the side in the low byte.
    pub fn pack_key(bucket_index: i64, side: LiquidationSide) -> (key: i64)
        ensures
            key == ((bucket_index << 8u64) | side_bits(side)),
    {
        let bits: i64 = match side {
            LiquidationSide::Long => 0,
            LiquidationSide::Short => 1,
        };
        (bucket_index << 8u64) | bits
    }

    /// Recovers `(bucket_index, side)` from a packed key: the side from the
    /// lowest bit, the index by an arithmetic shift.
    pub fn unpack_key(key: i64) -> (r: (i64, LiquidationSide))
        ensures
            r.0 == (key >> 8u64),
            r.1 == (if key & 1 == 0 {
                LiquidationSide::Long
            } else {
                LiquidationSide::Short
            }),
    {
        let side = if key & 1 == 0 {
            LiquidationSide::Long
        } else {
            LiquidationSide::Short
        };
        (key >> 8u64, side)
    }
}

/// Keys of a bucket table are distinct.
pub open spec fn distinct_keys(table: Seq<(i64, RealLiquidationBucket)>) -> bool {
    forall|i: int, j: int| 0 <= i < j < table.len() ==> table[i].0 != table[j].0
}

/// The position of `key` in a table, searching from position `k`.
pub open spec fn key_position(table: Seq<(i64, RealLiquidationBucket)>, key: i64, k: int) -> Option<int>
    decreases table.len() - k,
{
    if k < 0 || k >= table.len() {
        None
    } else if table[k].0 == key {
        Some(k)
    } else {
        key_position(table, key, k + 1)
    }
}

/// A bucket after one more event at `ts_ms`: one more event (saturating)
/// and the later of the two update times.
pub open spec fn bucket_hit(b: RealLiquidationBucket, ts_ms: u64) -> RealLiquidationBucket {
    RealLiquidationBucket {
        event_count: if b.event_count == u32::MAX { u32::MAX } else { (b.event_count + 1) as u32 },
        last_updated_ms: if ts_ms > b.last_updated_ms { ts_ms } else { b.last_updated_ms },
        ..b
    }
}

/// The table after recording an event in the bucket `(bucket_index, side)`
/// under `key`: the existing bucket is hit, or a new one with one event is
/// appended.
pub open spec fn upserted(
    table: Seq<(i64, RealLiquidationBucket)>,
    key: i64,
    bucket_index: i64,
    side: LiquidationSide,
    ts_ms: u64,
) -> Seq<(i64, RealLiquidationBucket)> {
    match key_position(table, key, 0) {
        Some(i) => table.update(i, (key, bucket_hit(table[i].1, ts_ms))),
        None => table.push(
            (key, RealLiquidationBucket { bucket_index, side, event_count: 1, last_updated_ms: ts_ms }),
        ),
    }
}

/// `m` is the first position whose bucket was updated least recently.
pub open spec fn is_first_oldest(table: Seq<(i64, RealLiquidationBucket)>, m: int) -> bool {
    &&& 0 <= m < table.len()
    &&& forall|j: int| 0 <= j < table.len() ==> table[m].1.last_updated_ms <= #[trigger] table[j].1.last_updated_ms
    &&& forall|j: int| 0 <= j < m ==> table[m].1.last_updated_ms < #[trigger] table[j].1.last_updated_ms
}

proof fn lemma_key_position_found(table: Seq<(i64, RealLiquidationBucket)>, key: i64, k: int, i: int)
    requires
        0 <= k <= i < table.len(),
        table[i].0 == key,
        forall|j: int| k <= j < i ==> table[j].0 != key,
    ensures
        key_position(table, key, k) == Some(i),
    decreases i - k,
{
    if k < i {
        lemma_key_position_found(table, key, k + 1, i);
    }
}

proof fn lemma_key_position_absent(table: Seq<(i64, RealLiquidationBucket)>, key: i64, k: int)
    requires
        0 <= k,
        forall|j: int| k <= j < table.len() ==> table[j].0 != key,
    ensures
        key_position(table, key, k) is None,
    decreases table.len() - k,
{
    if k < table.len() {
        lemma_key_position_absent(table, key, k + 1);
    }
}

/// Records one liquidation in the bucket table: the bucket under `key` is
/// hit (or created with one event), then, when the table holds more than
/// `max_buckets` entries, the first least recently updated bucket is
/// evicted and returned.
pub fn record_bucket_hit(
    table: &mut Vec<(i64, RealLiquidationBucket)>,
    key: i64,
    bucket_index: i64,
    side: LiquidationSide,
    ts_ms: u64,
    max_buckets: usize,
) -> (evicted: Option<(i64, RealLiquidationBucket)>)
    requires
        distinct_keys(old(table)@),
    ensures
        distinct_keys(final(table)@),
        match evicted {
            None => {
                &&& upserted(old(table)@, key, bucket_index, side, ts_ms).len() <= max_buckets
                &&& final(table)@ == upserted(old(table)@, key, bucket_index, side, ts_ms)
            },
            Some(e) => {
                let t1 = upserted(old(table)@, key, bucket_index, side, ts_ms);
                &&& t1.len() > max_buckets
                &&& exists|m: int| is_first_oldest(t1, m) && e == t1[m] && final(table)@ == t1.remove(m)
            },
        },
{
    let ghost t0 = table@;
    let mut i: usize = 0;
    let mut found: Option<usize> = None;
    while i < table.len()
        invariant_except_break
            found is None,
        invariant
            i <= table@.len(),
            table@ == t0,
            forall|j: int| 0 <= j < i ==> table@[j].0 != key,
        ensures
            match found {
                Some(p) => p < t0.len() && t0[p as int].0 == key && forall|j: int| 0 <= j < p ==> t0[j].0 != key,
                None => forall|j: int| 0 <= j < t0.len() ==> t0[j].0 != key,
            },
        decreases table.len() - i,
    {
        if table[i].0 == key {
            found = Some(i);
            break;
        }
        i = i + 1;
    }
    match found {
        Some(p) => {
            proof {
                lemma_key_position_found(t0, key, 0, p as int);
            }
            let b = table[p].1;
            let count: u32 = if b.event_count == u32::MAX {
                u32::MAX
            } else {
                b.event_count + 1
            };
            let last: u64 = if ts_ms > b.last_updated_ms {
                ts_ms
            } else {
                b.last_updated_ms
            };
            table.set(p, (key, RealLiquidationBucket { event_count: count, last_updated_ms: last, ..b }));
        },
        None => {
            proof {
                lemma_key_position_absent(t0, key, 0);
            }
            table.push((key, RealLiquidationBucket { bucket_index, side, event_count: 1, last_updated_ms: ts_ms }));
        },
    }
    let ghost t1 = table@;
    assert(t1 == upserted(t0, key, bucket_index, side, ts_ms));
    assert forall|a: int, b: int| 0 <= a < b < t1.len() implies t1[a].0 != t1[b].0 by {
        if b == t0.len() {
            assert(t0[a].0 != key);
        } else if let Some(p) = found {
            if a == p as int {
                assert(t0[b].0 != t0[a].0);
            } else if b == p as int {
                assert(t0[a].0 != t0[b].0);
            }
        }
    }
    if table.len() <= max_buckets {
        return None;
    }
    let mut m: usize = 0;
    let mut j: usize = 1;
    while j < table.len()
        invariant
            table@ == t1,
            1 <= j <= t1.len(),
            m < j,
            forall|q: int| 0 <= q < j ==> t1[m as int].1.last_updated_ms <= #[trigger] t1[q].1.last_updated_ms,
            forall|q: int| 0 <= q < m ==> t1[m as int].1.last_updated_ms < #[trigger] t1[q].1.last_updated_ms,
        decreases table.len() - j,
    {
        if table[j].1.last_updated_ms < table[m].1.last_updated_ms {
            m = j;
        }
        j = j + 1;
    }
    let e = table.remove(m);
    proof {
        assert(is_first_oldest(t1, m as int));
        assert forall|a: int, b: int| 0 <= a < b < table@.len() implies table@[a].0 != table@[b].0 by {
            let oa = if a < m { a } else { a + 1 };
            let ob = if b < m { b } else { b + 1 };
            assert(table@[a] == t1[oa]);
            assert(table@[b] == t1[ob]);
        }
    }
    Some(e)
}

/// The oldest update a bucket may carry and still be kept: `retention_ms`
/// before `now_ms`, floored at zero.
pub open spec fn retention_cutoff(now_ms: u64, retention_ms: u64) -> int {
    if now_ms >= retention_ms {
        now_ms - retention_ms
    } else {
        0
    }
}

/// The buckets of a keyed table that survive eviction at `now_ms`:
/// exactly the entries updated at or after the cutoff, each once, in
/// ascending key order. The table's keys are distinct.
#[verifier::spinoff_prover]
#[verifier::rlimit(40)]
pub fn retained_buckets(table: &Vec<(i64, RealLiquidationBucket)>, now_ms: u64, retention_ms: u64) -> (kept: Vec<(i64, RealLiquidationBucket)>)
    requires
        forall|i: int, j: int| 0 <= i < j < table@.len() ==> table@[i].0 != table@[j].0,
    ensures
        forall|q: int| 0 <= q < kept@.len() ==> table@.contains(#[trigger] kept@[q])
            && kept@[q].1.last_updated_ms >= retention_cutoff(now_ms, retention_ms),
        forall|i: int| 0 <= i < table@.len() && #[trigger] table@[i].1.last_updated_ms >= retention_cutoff(now_ms, retention_ms)
            ==> kept@.contains(table@[i]),
        forall|i: int, j: int| 0 <= i < j < kept@.len() ==> kept@[i].0 < kept@[j].0,
{
    let cutoff: u64 = if now_ms >= retention_ms {
        now_ms - retention_ms
    } else {
        0
    };
    let mut kept: Vec<(i64, RealLiquidationBucket)> = Vec::new();
    let mut k: usize = 0;
    while k < table.len()
        invariant
            k <= table@.len(),
            cutoff == retention_cutoff(now_ms, retention_ms),
            forall|i: int, j: int| 0 <= i < j < table@.len() ==> table@[i].0 != table@[j].0,
            forall|q: int| 0 <= q < kept@.len() ==> exists|i: int| 0 <= i < k && table@[i] == #[trigger] kept@[q],
            forall|q: int| 0 <= q < kept@.len() ==> #[trigger] kept@[q].1.last_updated_ms >= cutoff,
            forall|i: int| 0 <= i < k && #[trigger] table@[i].1.last_updated_ms >= cutoff ==> kept@.contains(table@[i]),
            forall|i: int, j: int| 0 <= i < j < kept@.len() ==> kept@[i].0 < kept@[j].0,
        decreases table.len() - k,
    {
        let entry = table[k];
        if entry.1.last_updated_ms >= cutoff {
            let mut p: usize = kept.len();
            while p > 0 && entry.0 < kept[p - 1].0
                invariant
                    p <= kept@.len(),
                    forall|q: int| p <= q < kept@.len() ==> entry.0 < #[trigger] kept@[q].0,
                decreases p,
            {
                p = p - 1;
            }
            let ghost old_kept = kept@;
            proof {
                // `entry`'s key differs from every kept key, which all come from
                // earlier table positions.
                assert forall|q: int| 0 <= q < p implies #[trigger] old_kept[q].0 < entry.0 by {
                    let i = choose|i: int| 0 <= i < k && table@[i] == old_kept[q];
                    assert(table@[i].0 != table@[k as int].0);
                    if q < p - 1 {
                        assert(old_kept[q].0 < old_kept[p - 1].0);
                    }
                }
            }
            kept.insert(p, entry);
            proof {
                old_kept.insert_ensures(p as int, entry);
                assert forall|q: int| 0 <= q < kept@.len() implies exists|i: int| 0 <= i < k + 1 && table@[i] == #[trigger] kept@[q] by {
                    if q < p {
                        assert(kept@[q] == old_kept[q]);
                    } else if q > p {
                        assert(kept@[q] == old_kept[q - 1]);
                    } else {
                        assert(table@[k as int] == kept@[q]);
                    }
                }
                assert forall|q: int| 0 <= q < kept@.len() implies #[trigger] kept@[q].1.last_updated_ms >= cutoff by {
                    if q < p {
                        assert(kept@[q] == old_kept[q]);
                    } else if q > p {
                        assert(kept@[q] == old_kept[q - 1]);
                    }
                }
                assert forall|i: int| 0 <= i < k + 1 && #[trigger] table@[i].1.last_updated_ms >= cutoff implies kept@.contains(table@[i]) by {
                    if i == k {
                        assert(kept@[p as int] == table@[i]);
                    } else {
                        assert(old_kept.contains(table@[i]));
                        let q = choose|q: int| 0 <= q < old_kept.len() && old_kept[q] == table@[i];
                        if q < p {
                            assert(kept@[q] == old_kept[q]);
                        } else {
                            assert(kept@[q + 1] == old_kept[q]);
                        }
                    }
                }
                assert forall|i: int, j: int| 0 <= i < j < kept@.len() implies kept@[i].0 < kept@[j].0 by {
                    if j < p {
                        assert(kept@[i] == old_kept[i] && kept@[j] == old_kept[j]);
                    } else if j == p {
                        assert(kept@[i] == old_kept[i]);
                    } else if i < p {
                        assert(kept@[i] == old_kept[i] && kept@[j] == old_kept[j - 1]);
                    } else if i == p {
                        assert(kept@[j] == old_kept[j - 1]);
                    } else {
                        assert(kept@[i] == old_kept[i - 1] && kept@[j] == old_kept[j - 1]);
                    }
                }
            }
        }
        k = k + 1;
    }
    proof {
        assert forall|q: int| 0 <= q < kept@.len() implies table@.contains(#[trigger] kept@[q]) by {
            let i = choose|i: int| 0 <= i < table@.len() && table@[i] == kept@[q];
        }
    }
    kept
}

/// Unpacking a packed key gives back the index and side, for every index
/// that fits in 56 signed bits.
pub proof fn lemma_pack_unpack_round_trip(bucket_index: i64, side: LiquidationSide)
    requires
        packable_index(bucket_index),
    ensures
        (((bucket_index << 8u64) | side_bits(side)) >> 8u64) == bucket_index,
        (((bucket_index << 8u64) | side_bits(side)) & 1 == 0) == (side == LiquidationSide::Long),
{
    let b = side_bits(side);
    assert(0 <= b <= 1);
    assert((((bucket_index << 8u64) | b) >> 8u64) == bucket_index) by (bit_vector)
        requires
            -0x80_0000_0000_0000 <= bucket_index < 0x80_0000_0000_0000,
            0 <= b <= 1,
    ;
    assert((((bucket_index << 8u64) | b) & 1 == 0) == (b == 0)) by (bit_vector)
        requires
            0 <= b <= 1,
    ;
}

// ---------------------------------------------------------------------
// Alignment and overview levels
// ---------------------------------------------------------------------

/// Alignment state of a dimension.
#[derive(Debug, Clone, Copy, PartialEq, Eq)]
pub enum AlignState {
    StrongBullish,
    Bullish,
    Bearish,
    StrongBearish,
    Neutral,
    Mixed,
    NoData,
}

impl AlignState {
    /// The display name of the state.
    pub open spec fn display_name(self) -> &'static str {
        match self {
            AlignState::StrongBullish => "STRONG_BULLISH",
            AlignState::Bullish => "BULLISH",
            AlignState::Bearish => "BEARISH",
            AlignState::StrongBearish => "STRONG_BEARISH",
            AlignState::Neutral => "NEUTRAL",
            AlignState::Mixed => "MIXED",
            AlignState::NoData => "NO_DATA",
        }
    }

    /// The display name of the state.
    pub fn as_str(&self) -> (s: &'static str)
        ensures
            s == self.display_name(),
    {
        match self {
            AlignState::StrongBullish => "STRONG_BULLISH",
            AlignState::Bullish => "BULLISH",
            AlignState::Bearish => "BEARISH",
            AlignState::StrongBearish => "STRONG_BEARISH",
            AlignState::Neutral => "NEUTRAL",
            AlignState::Mixed => "MIXED",
            AlignState::NoData => "NO_DATA",
        }
    }
}

/// Global market bias.
#[derive(Debug, Clone, Copy, PartialEq, Eq)]
pub enum GlobalBias {
    StrongBullish,
    Bullish,
    Neutral,
    Bearish,
    StrongBearish,
    Mixed,
}

impl GlobalBias {
    /// The display name of the bias.
    pub open spec fn display_name(self) -> &'static str {
        match self {
            GlobalBias::StrongBullish => "STRONG_BULLISH",
            GlobalBias::Bullish => "BULLISH",
            GlobalBias::Neutral => "NEUTRAL",
            GlobalBias::Bearish => "BEARISH",
            GlobalBias::StrongBearish => "STRONG_BEARISH",
            GlobalBias::Mixed => "MIXED",
        }
    }

    /// The display name of the bias.
    pub fn as_str(&self) -> (s: &'static str)
        ensures
            s == self.display_name(),
    {
        match self {
            GlobalBias::StrongBullish => "STRONG_BULLISH",
            GlobalBias::Bullish => "BULLISH",
            GlobalBias::Neutral => "NEUTRAL",
            GlobalBias::Bearish => "BEARISH",
            GlobalBias::StrongBearish => "STRONG_BEARISH",
            GlobalBias::Mixed => "MIXED",
        }
    }
}

/// Market breadth level.
#[derive(Debug, Clone, Copy, PartialEq, Eq)]
pub enum MarketBreadth {
    VeryWeak,
    Weak,
    Balanced,
    Positive,
    StrongPositive,
    Negative,
    StrongNegative,
}

/// Market synchronisation level.
#[derive(Debug, Clone, Copy, PartialEq, Eq)]
pub enum SyncLevel {
    HighlySynchronized,
    Synchronized,
    Mixed,
    Fragmented,
    HighlyFragmented,
}

/// Market health level.
#[derive(Debug, Clone, Copy, PartialEq, Eq)]
pub enum HealthLevel {
    Poor,
    Weak,
    Neutral,
    Healthy,
    Strong,
}

// ---------------------------------------------------------------------
// Overview
// ---------------------------------------------------------------------

/// The texts of a list of strings.
pub open spec fn texts(v: Seq<String>) -> Seq<Seq<char>> {
    v.map_values(|s: String| s@)
}

/// Strictly ascending by character order, so each text occurs once.
pub open spec fn sorted_texts(v: Seq<Seq<char>>) -> bool {
    forall|i: int, j: int| 0 <= i < j < v.len() ==> lex_lt(v[i], v[j])
}

/// `x` is the symbol of an active instance or of an advisory.
pub open spec fn overview_symbol(instances: Seq<(String, bool)>, advisories: Seq<String>, x: Seq<char>) -> bool {
    ||| exists|i: int| 0 <= i < instances.len() && instances[i].1 && #[trigger] instances[i].0@ == x
    ||| exists|j: int| 0 <= j < advisories.len() && #[trigger] advisories[j]@ == x
}

fn insert_text_sorted(out: &mut Vec<String>, c: &String)
    requires
        sorted_texts(texts(old(out)@)),
    ensures
        sorted_texts(texts(final(out)@)),
        forall|x: Seq<char>| texts(final(out)@).contains(x) <==> (texts(old(out)@).contains(x) || x == c@),
{
    let ghost before = texts(out@);
    let mut p: usize = out.len();
    while p > 0 && lex_less(c.as_str(), out[p - 1].as_str())
        invariant
            p <= out@.len(),
            before == texts(out@),
            forall|q: int| p <= q < out@.len() ==> lex_lt(c@, #[trigger] before[q]),
        decreases p,
    {
        assert(before[p - 1] == out@[p - 1]@);
        p = p - 1;
    }
    if p > 0 && same_text(out[p - 1].as_str(), c.as_str()) {
        assert(before[p - 1] == c@);
        assert forall|x: Seq<char>| before.contains(x) <==> (before.contains(x) || x == c@) by {
            if x == c@ {
                assert(before[p - 1] == x);
            }
        }
        return;
    }
    proof {
        if p > 0 {
            assert(before[p - 1] == out@[p - 1]@);
            assert(!lex_lt(c@, before[p - 1]));
            assert(before[p - 1] != c@);
            if !lex_lt(before[p - 1], c@) {
                lemma_lex_total(before[p - 1], c@);
            }
        }
        assert forall|q: int| 0 <= q < p implies lex_lt(#[trigger] before[q], c@) by {
            if q < p - 1 {
                lemma_lex_transitive(before[q], before[p - 1], c@);
            }
        }
    }
    out.insert(p, c.clone());
    proof {
        let after = texts(out@);
        assert(after =~= before.insert(p as int, c@)) by {
            assert forall|q: int| 0 <= q < after.len() implies after[q] == before.insert(p as int, c@)[q] by {
                if q < p {
                    assert(out@[q]@ == before[q]);
                } else if q > p {
                    assert(out@[q]@ == before[q - 1]);
                }
            }
        }
        before.insert_ensures(p as int, c@);
        assert forall|i: int, j: int| 0 <= i < j < after.len() implies lex_lt(after[i], after[j]) by {
            if j < p {
            } else if j == p {
            } else if i < p {
                assert(after[j] == before[j - 1]);
                lemma_lex_transitive(before[i], c@, before[j - 1]);
            } else if i == p {
                assert(after[j] == before[j - 1]);
            } else {
                assert(after[i] == before[i - 1] && after[j] == before[j - 1]);
            }
        }
        assert forall|x: Seq<char>| after.contains(x) <==> (before.contains(x) || x == c@) by {
            if after.contains(x) {
                let q = choose|q: int| 0 <= q < after.len() && after[q] == x;
                if q < p {
                    assert(before[q] == x);
                } else if q > p {
                    assert(before[q - 1] == x);
                }
            }
            if before.contains(x) {
                let q = choose|q: int| 0 <= q < before.len() && before[q] == x;
                if q < p {
                    assert(after[q] == x);
                } else {
                    assert(after[q + 1] == x);
                }
            }
            if x == c@ {
                assert(after[p as int] == x);
            }
        }
    }
}

/// The symbols an overview covers: those of the active instances and of
/// the advisories, each once, in ascending character order.
pub fn overview_symbols(instances: &Vec<(String, bool)>, advisories: &Vec<String>) -> (out: Vec<String>)
    ensures
        sorted_texts(texts(out@)),
        forall|x: Seq<char>| texts(out@).contains(x) <==> overview_symbol(instances@, advisories@, x),
{
    let mut out: Vec<String> = Vec::new();
    assert(texts(out@) =~= Seq::<Seq<char>>::empty());
    let mut i: usize = 0;
    while i < instances.len()
        invariant
            i <= instances@.len(),
            sorted_texts(texts(out@)),
            forall|x: Seq<char>| texts(out@).contains(x) <==> (exists|k: int| 0 <= k < i && instances@[k].1
                && #[trigger] instances@[k].0@ == x),
        decreases instances.len() - i,
    {
        if instances[i].1 {
            insert_text_sorted(&mut out, &instances[i].0);
        }
        proof {
            assert forall|x: Seq<char>| texts(out@).contains(x) <==> (exists|k: int| 0 <= k < i + 1
                && instances@[k].1 && #[trigger] instances@[k].0@ == x) by {
                if instances@[i as int].1 && instances@[i as int].0@ == x {
                    assert(0 <= i < i + 1);
                }
            }
        }
        i = i + 1;
    }
    let mut j: usize = 0;
    while j < advisories.len()
        invariant
            j <= advisories@.len(),
            i == instances@.len(),
            sorted_texts(texts(out@)),
            forall|x: Seq<char>| texts(out@).contains(x) <==> ((exists|k: int| 0 <= k < instances@.len()
                && instances@[k].1 && #[trigger] instances@[k].0@ == x) || (exists|k: int| 0 <= k < j
                && #[trigger] advisories@[k]@ == x)),
        decreases advisories.len() - j,
    {
        insert_text_sorted(&mut out, &advisories[j]);
        proof {
            assert forall|x: Seq<char>| texts(out@).contains(x) <==> ((exists|k: int| 0 <= k < instances@.len()
                && instances@[k].1 && #[trigger] instances@[k].0@ == x) || (exists|k: int| 0 <= k < j + 1
                && #[trigger] advisories@[k]@ == x)) by {
                if advisories@[j as int]@ == x {
                    assert(0 <= j < j + 1);
                }
            }
        }
        j = j + 1;
    }
    out
}

// ---------------------------------------------------------------------
// Cross-timeframe signals
// ---------------------------------------------------------------------

/// A signal's identity as text: indicator, label and kind.
pub open spec fn signal_key(k: (String, String, String)) -> (Seq<char>, Seq<char>, Seq<char>) {
    (k.0@, k.1@, k.2@)
}

/// The set of one timeframe holds the signal `k`.
pub open spec fn set_has(set: Seq<(String, String, String)>, k: (Seq<char>, Seq<char>, Seq<char>)) -> bool {
    exists|i: int| 0 <= i < set.len() && #[trigger] signal_key(set[i]) == k
}

/// In how many of the timeframes the signal `k` is active.
pub open spec fn tf_count(sets: Seq<Seq<(String, String, String)>>, k: (Seq<char>, Seq<char>, Seq<char>)) -> nat
    decreases sets.len(),
{
    if sets.len() == 0 {
        0
    } else {
        tf_count(sets.drop_last(), k) + if set_has(sets.last(), k) { 1nat } else { 0nat }
    }
}

/// The signals active in at least `min_tfs` timeframes (and in one at
/// least).
pub open spec fn cross_tf_keys(sets: Seq<Seq<(String, String, String)>>, min_tfs: u32) -> Set<
    (Seq<char>, Seq<char>, Seq<char>),
> {
    Set::new(
        |k: (Seq<char>, Seq<char>, Seq<char>)|
            (exists|t: int| 0 <= t < sets.len() && set_has(#[trigger] sets[t], k)) && tf_count(sets, k)
                >= min_tfs,
    )
}

fn same_signal(a: &(String, String, String), b: &(String, String, String)) -> (r: bool)
    ensures
        r == (signal_key(*a) == signal_key(*b)),
{
    same_text(a.0.as_str(), b.0.as_str()) && same_text(a.1.as_str(), b.1.as_str()) && same_text(
        a.2.as_str(),
        b.2.as_str(),
    )
}

fn set_contains(set: &Vec<(String, String, String)>, k: &(String, String, String)) -> (r: bool)
    ensures
        r == set_has(set@, signal_key(*k)),
{
    let mut i: usize = 0;
    while i < set.len()
        invariant
            i <= set@.len(),
            forall|j: int| 0 <= j < i ==> signal_key(set@[j]) != signal_key(*k),
        decreases set.len() - i,
    {
        if same_signal(&set[i], k) {
            assert(signal_key(set@[i as int]) == signal_key(*k));
            return true;
        }
        i = i + 1;
    }
    false
}

fn count_tfs(sets: &Vec<Vec<(String, String, String)>>, k: &(String, String, String)) -> (n: usize)
    ensures
        n == tf_count(sets@.map_values(|v: Vec<(String, String, String)>| v@), signal_key(*k)),
{
    let ghost all = sets@.map_values(|v: Vec<(String, String, String)>| v@);
    let mut n: usize = 0;
    let mut t: usize = 0;
    while t < sets.len()
        invariant
            t <= sets@.len(),
            all == sets@.map_values(|v: Vec<(String, String, String)>| v@),
            n == tf_count(all.take(t as int), signal_key(*k)),
            n <= t,
        decreases sets.len() - t,
    {
        assert(all.take(t + 1).drop_last() =~= all.take(t as int));
        assert(all.take(t + 1).last() == sets@[t as int]@);
        if set_contains(&sets[t], k) {
            n = n + 1;
        }
        t = t + 1;
    }
    assert(all.take(sets@.len() as int) =~= all);
    n
}

/// The number of distinct signals (same indicator, label and kind) active
/// in at least `min_tfs` timeframes, given each timeframe's set of signal
/// identities; zero with fewer than two timeframes. The count is taken
/// modulo 2^32, as a cast to `u32` does.
pub fn cross_tf_signal_count(sets: &Vec<Vec<(String, String, String)>>, min_tfs: u32) -> (n: u32)
    ensures
        n == if sets@.len() < 2 {
            0
        } else {
            (cross_tf_keys(sets@.map_values(|v: Vec<(String, String, String)>| v@), min_tfs).len()
                % 4294967296) as u32
        },
{
    let ghost all = sets@.map_values(|v: Vec<(String, String, String)>| v@);
    if sets.len() < 2 {
        return 0;
    }
    // Every distinct signal, visited at its first occurrence.
    let mut found: u32 = 0;
    let ghost mut seen: Seq<(Seq<char>, Seq<char>, Seq<char>)> = Seq::empty();
    let ghost mut kept: Seq<(Seq<char>, Seq<char>, Seq<char>)> = Seq::empty();
    let mut t: usize = 0;
    while t < sets.len()
        invariant
            t <= sets@.len(),
            all == sets@.map_values(|v: Vec<(String, String, String)>| v@),
            seen.no_duplicates(),
            kept.no_duplicates(),
            found == kept.len() % 4294967296,
            forall|k| seen.contains(k) <==> (exists|u: int| 0 <= u < t && set_has(#[trigger] all[u], k)),
            forall|k| kept.contains(k) <==> (seen.contains(k) && tf_count(all, k) >= min_tfs),
        decreases sets.len() - t,
    {
        let set = &sets[t];
        assert(all[t as int] == set@);
        let mut i: usize = 0;
        while i < set.len()
            invariant
                t < sets@.len(),
                i <= set@.len(),
                set == &sets@[t as int],
                all == sets@.map_values(|v: Vec<(String, String, String)>| v@),
                all[t as int] == set@,
                seen.no_duplicates(),
                kept.no_duplicates(),
                found == kept.len() % 4294967296,
                forall|k| seen.contains(k) <==> ((exists|u: int| 0 <= u < t && set_has(#[trigger] all[u], k))
                    || (exists|j: int| 0 <= j < i && #[trigger] signal_key(set@[j]) == k)),
                forall|k| kept.contains(k) <==> (seen.contains(k) && tf_count(all, k) >= min_tfs),
            decreases set.len() - i,
        {
            let k = &set[i];
            let ghost kv = signal_key(*k);
            // First occurrence: in no earlier timeframe, nor earlier in this one.
            let mut in_prior = false;
            let mut u: usize = 0;
            while u < t && !in_prior
                invariant
                    u <= t,
                    t < sets@.len(),
                    all == sets@.map_values(|v: Vec<(String, String, String)>| v@),
                    kv == signal_key(*k),
                    in_prior == (exists|w: int| 0 <= w < u && set_has(#[trigger] all[w], kv)),
                decreases t - u,
            {
                assert(all[u as int] == sets@[u as int]@);
                if set_contains(&sets[u], k) {
                    in_prior = true;
                }
                proof {
                    if set_has(all[u as int], kv) {
                        assert(exists|w: int| 0 <= w < u + 1 && set_has(#[trigger] all[w], kv));
                    }
                }
                u = u + 1;
            }
            let mut in_this = false;
            let mut j: usize = 0;
            while j < i && !in_this
                invariant
                    j <= i,
                    i < set@.len(),
                    kv == signal_key(*k),
                    in_this == (exists|w: int| 0 <= w < j && #[trigger] signal_key(set@[w]) == kv),
                decreases i - j,
            {
                if same_signal(&set[j], k) {
                    in_this = true;
                }
                proof {
                    if signal_key(set@[j as int]) == kv {
                        assert(exists|w: int| 0 <= w < j + 1 && #[trigger] signal_key(set@[w]) == kv);
                    }
                }
                j = j + 1;
            }
            let earlier = in_prior || in_this;
            let ghost old_seen = seen;
            let ghost old_kept = kept;
            if !earlier {
                proof {
                    assert(u == t && j == i);
                    assert(!seen.contains(kv));
                }
                let c = count_tfs(sets, k);
                proof {
                    seen = seen.push(kv);
                    assert forall|k2| seen.contains(k2) <==> (old_seen.contains(k2) || k2 == kv) by {
                        if old_seen.contains(k2) {
                            let q = choose|q: int| 0 <= q < old_seen.len() && old_seen[q] == k2;
                            assert(seen[q] == k2);
                        }
                        if k2 == kv {
                            assert(seen[old_seen.len() as int] == k2);
                        }
                    }
                }
                if c >= min_tfs as usize {
                    proof {
                        assert(!kept.contains(kv));
                        let m = kept.len();
                        assert((m + 1) % 4294967296 == if m % 4294967296 == 4294967295 {
                            0
                        } else {
                            m % 4294967296 + 1
                        }) by (nonlinear_arith);
                        kept = kept.push(kv);
                        assert forall|k2| kept.contains(k2) <==> (old_kept.contains(k2) || k2 == kv) by {
                            if old_kept.contains(k2) {
                                let q = choose|q: int| 0 <= q < old_kept.len() && old_kept[q] == k2;
                                assert(kept[q] == k2);
                            }
                            if k2 == kv {
                                assert(kept[old_kept.len() as int] == k2);
                            }
                        }
                    }
                    found = if found == u32::MAX {
                        0
                    } else {
                        found + 1
                    };
                }
            } else {
                proof {
                    if in_prior {
                        let w = choose|w: int| 0 <= w < u && set_has(#[trigger] all[w], kv);
                        assert(0 <= w < t);
                    } else {
                        let w = choose|w: int| 0 <= w < j && #[trigger] signal_key(set@[w]) == kv;
                        assert(0 <= w < i);
                    }
                    assert(seen.contains(kv));
                }
            }
            proof {
                assert(set_has(all[t as int], kv)) by {
                    assert(signal_key(set@[i as int]) == kv);
                }
                assert forall|k2| seen.contains(k2) <==> ((exists|u2: int| 0 <= u2 < t && set_has(#[trigger] all[u2], k2))
                    || (exists|j2: int| 0 <= j2 < i + 1 && #[trigger] signal_key(set@[j2]) == k2)) by {
                    if k2 == kv {
                        assert(signal_key(set@[i as int]) == k2);
                    } else if exists|j2: int| 0 <= j2 < i + 1 && #[trigger] signal_key(set@[j2]) == k2 {
                        let j2 = choose|j2: int| 0 <= j2 < i + 1 && #[trigger] signal_key(set@[j2]) == k2;
                        assert(j2 < i);
                    }
                }
            }
            i = i + 1;
        }
        t = t + 1;
    }
    proof {
        let target = cross_tf_keys(all, min_tfs);
        assert(kept.to_set() =~= target);
        kept.unique_seq_to_set();
    }
    found
}

} // verus!
