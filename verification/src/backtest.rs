//! Historical replay planning: run phases, the chunked warm-up of a
//! timeframe series, the lookup of the latest bar at or before a replay
//! time, and the timeframes a symbol's ladder replays and warms on.
use vstd::prelude::*;
use crate::durations::strictly_ascending;

verus! {

/// Phase of a historical run.
#[derive(Debug, Clone, Copy, PartialEq, Eq)]
pub enum RunPhase {
    Fetching,
    Warming,
    Replaying,
    Analyzing,
}

impl RunPhase {
    /// The wire name of the phase.
    pub open spec fn name_spec(self) -> &'static str {
        match self {
            RunPhase::Fetching => "fetching",
            RunPhase::Warming => "warming",
            RunPhase::Replaying => "replaying",
            RunPhase::Analyzing => "analyzing",
        }
    }

    /// The wire name of the phase.
    pub fn as_str(&self) -> (s: &'static str)
        ensures
            s == self.name_spec(),
    {
        match self {
            RunPhase::Fetching => "fetching",
            RunPhase::Warming => "warming",
            RunPhase::Replaying => "replaying",
            RunPhase::Analyzing => "analyzing",
        }
    }
}

// ---------------------------------------------------------------------
// Chunked warm-up
// ---------------------------------------------------------------------

/// Candles per warm-up call.
pub const CHUNK_CANDLES: usize = 5000;

/// Overlap between consecutive chunks: every indicator lookback is at most
/// this many bars, so an overlapped chunk's tail matches a continuous
/// replay.
pub const CHUNK_OVERLAP: usize = 300;

/// One warm-up call: candles `start..end`, of whose snapshots the first
/// `skip` (the re-convergence overlap) are dropped.
#[derive(Debug, Clone, Copy, PartialEq, Eq)]
pub struct WarmChunk {
    pub start: usize,
    pub end: usize,
    pub skip: usize,
}

/// The chunks from candle `start` on, for a series of `n` candles.
pub open spec fn chunk_plan_from(n: int, start: int) -> Seq<WarmChunk>
    decreases n - start,
{
    if start < 0 || start >= n {
        Seq::empty()
    } else {
        let end = if n - start > CHUNK_CANDLES {
            start + CHUNK_CANDLES
        } else {
            n
        };
        let c = WarmChunk {
            start: start as usize,
            end: end as usize,
            skip: if start == 0 {
                0
            } else {
                CHUNK_OVERLAP
            },
        };
        if end >= n {
            seq![c]
        } else {
            seq![c] + chunk_plan_from(n, end - CHUNK_OVERLAP)
        }
    }
}

/// The warm-up chunks of a series of `n` candles: windows of at most
/// [`CHUNK_CANDLES`] candles, each after the first starting
/// [`CHUNK_OVERLAP`] candles before the previous one ended.
pub fn warm_chunk_plan(n: usize) -> (plan: Vec<WarmChunk>)
    ensures
        plan@ == chunk_plan_from(n as int, 0),
{
    let mut plan: Vec<WarmChunk> = Vec::new();
    let mut start: usize = 0;
    while start < n
        invariant_except_break
            start < n ==> chunk_plan_from(n as int, 0) == plan@ + chunk_plan_from(n as int, start as int),
            start >= n ==> chunk_plan_from(n as int, 0) == plan@,
            start == 0 ==> plan@.len() == 0,
        ensures
            chunk_plan_from(n as int, 0) == plan@,
        decreases n - start,
    {
        let end = if n - start > CHUNK_CANDLES {
            start + CHUNK_CANDLES
        } else {
            n
        };
        let skip = if start == 0 {
            0
        } else {
            CHUNK_OVERLAP
        };
        let ghost old_plan = plan@;
        plan.push(WarmChunk { start, end, skip });
        if end >= n {
            assert(plan@ =~= old_plan + chunk_plan_from(n as int, start as int));
            break;
        }
        proof {
            assert(plan@ + chunk_plan_from(n as int, end - CHUNK_OVERLAP) =~= old_plan + (seq![
                WarmChunk { start, end, skip },
            ] + chunk_plan_from(n as int, end - CHUNK_OVERLAP)));
        }
        start = end - CHUNK_OVERLAP;
    }
    plan
}

/// The chunks of a non-empty series cover it exactly once: the first
/// starts at 0, the last ends at `n`, every chunk holds at most
/// [`CHUNK_CANDLES`] candles, and the kept part of each chunk (after its
/// `skip`) begins where the previous chunk ended.
pub proof fn lemma_chunk_plan_covers(n: int)
    requires
        0 < n <= usize::MAX,
    ensures
        chunk_plan_from(n, 0).len() > 0,
        chunk_plan_from(n, 0)[0].start == 0,
        chunk_plan_from(n, 0)[0].skip == 0,
        chunk_plan_from(n, 0).last().end == n,
        forall|i: int| 0 <= i < chunk_plan_from(n, 0).len() ==> {
            let c = #[trigger] chunk_plan_from(n, 0)[i];
            &&& c.start < c.end <= n
            &&& c.end - c.start <= CHUNK_CANDLES
            &&& c.skip < c.end - c.start
        },
        forall|i: int| 0 < i < chunk_plan_from(n, 0).len() ==> #[trigger] chunk_plan_from(n, 0)[i].start
            + chunk_plan_from(n, 0)[i].skip == chunk_plan_from(n, 0)[i - 1].end,
{
    lemma_chunk_plan_from(n, 0);
}

proof fn lemma_chunk_plan_from(n: int, start: int)
    requires
        0 <= start < n <= usize::MAX,
        start == 0 || (start >= CHUNK_CANDLES - CHUNK_OVERLAP && n - start > CHUNK_OVERLAP),
    ensures
        chunk_plan_from(n, start).len() > 0,
        chunk_plan_from(n, start)[0].start == start,
        chunk_plan_from(n, start)[0].skip == (if start == 0 {
            0
        } else {
            CHUNK_OVERLAP
        }),
        chunk_plan_from(n, start).last().end == n,
        forall|i: int| 0 <= i < chunk_plan_from(n, start).len() ==> {
            let c = #[trigger] chunk_plan_from(n, start)[i];
            &&& c.start < c.end <= n
            &&& c.end - c.start <= CHUNK_CANDLES
            &&& c.skip < c.end - c.start
        },
        forall|i: int| 0 < i < chunk_plan_from(n, start).len() ==> #[trigger] chunk_plan_from(n, start)[i].start
            + chunk_plan_from(n, start)[i].skip == chunk_plan_from(n, start)[i - 1].end,
    decreases n - start,
{
    let end = if n - start > CHUNK_CANDLES {
        start + CHUNK_CANDLES
    } else {
        n
    };
    if end < n {
        let next = end - CHUNK_OVERLAP;
        lemma_chunk_plan_from(n, next);
        let rest = chunk_plan_from(n, next);
        let plan = chunk_plan_from(n, start);
        assert(plan == seq![plan[0]] + rest);
        assert(plan.last() == rest.last());
        assert forall|i: int| 0 < i < plan.len() implies #[trigger] plan[i].start + plan[i].skip
            == plan[i - 1].end by {
            assert(plan[i] == rest[i - 1]);
            if i > 1 {
                assert(plan[i - 1] == rest[i - 2]);
            }
        }
        assert forall|i: int| 0 <= i < plan.len() implies {
            let c = #[trigger] plan[i];
            &&& c.start < c.end <= n
            &&& c.end - c.start <= CHUNK_CANDLES
            &&& c.skip < c.end - c.start
        } by {
            if i > 0 {
                assert(plan[i] == rest[i - 1]);
            }
        }
    }
}

// ---------------------------------------------------------------------
// Series lookup
// ---------------------------------------------------------------------

/// Binary search for the latest bar at or before `t` in a strictly
/// ascending series of timestamps: its position, or `None` when every bar
/// is later (or the series is empty).
pub fn latest_at_or_before(ts: &Vec<u64>, t: u64) -> (r: Option<usize>)
    requires
        strictly_ascending(ts@),
    ensures
        match r {
            Some(i) => i < ts@.len() && ts@[i as int] <= t && (i + 1 == ts@.len() || ts@[i + 1] > t),
            None => forall|i: int| 0 <= i < ts@.len() ==> ts@[i] > t,
        },
{
    let n = ts.len();
    if n == 0 || ts[0] > t {
        return None;
    }
    let mut lo: usize = 0;
    let mut hi: usize = n;
    while hi - lo > 1
        invariant
            lo < hi <= n,
            n == ts@.len(),
            strictly_ascending(ts@),
            ts@[lo as int] <= t,
            hi == n || ts@[hi as int] > t,
        decreases hi - lo,
    {
        let mid = lo + (hi - lo) / 2;
        if ts[mid] <= t {
            lo = mid;
        } else {
            hi = mid;
        }
    }
    Some(lo)
}

// ---------------------------------------------------------------------
// Ladder timeframes
// ---------------------------------------------------------------------

/// The smallest duration of a ladder (`None` when empty).
pub open spec fn ladder_min(ladder: Seq<u64>) -> Option<u64>
    decreases ladder.len(),
{
    if ladder.len() == 0 {
        None
    } else {
        match ladder_min(ladder.drop_last()) {
            None => Some(ladder.last()),
            Some(m) => Some(if ladder.last() < m {
                ladder.last()
            } else {
                m
            }),
        }
    }
}

/// The largest duration of a ladder (`None` when empty).
pub open spec fn ladder_max(ladder: Seq<u64>) -> Option<u64>
    decreases ladder.len(),
{
    if ladder.len() == 0 {
        None
    } else {
        match ladder_max(ladder.drop_last()) {
            None => Some(ladder.last()),
            Some(m) => Some(if ladder.last() > m {
                ladder.last()
            } else {
                m
            }),
        }
    }
}

/// The smallest and the largest duration of a ladder: for a non-empty ladder
/// each is one of its durations, the smallest at most and the largest at
/// least every duration of the ladder; an empty ladder has neither.
pub proof fn lemma_ladder_extremes(ladder: Seq<u64>)
    ensures
        ladder.len() == 0 ==> ladder_min(ladder) is None && ladder_max(ladder) is None,
        ladder.len() > 0 ==> (ladder_min(ladder) matches Some(m) && ladder.contains(m) && forall|i: int|
            0 <= i < ladder.len() ==> m <= #[trigger] ladder[i]),
        ladder.len() > 0 ==> (ladder_max(ladder) matches Some(m) && ladder.contains(m) && forall|i: int|
            0 <= i < ladder.len() ==> m >= #[trigger] ladder[i]),
    decreases ladder.len(),
{
    if ladder.len() > 0 {
        let rest = ladder.drop_last();
        lemma_ladder_extremes(rest);
        let l = ladder.last();
        assert(ladder[ladder.len() - 1] == l);
        assert forall|i: int| 0 <= i < rest.len() implies rest[i] == ladder[i] by {}
        if rest.len() > 0 {
            let lo = ladder_min(rest)->0;
            let hi = ladder_max(rest)->0;
            let wl = choose|w: int| 0 <= w < rest.len() && rest[w] == lo;
            let wh = choose|w: int| 0 <= w < rest.len() && rest[w] == hi;
            assert(ladder[wl] == lo);
            assert(ladder[wh] == hi);
        }
        assert(ladder.contains(l));
    }
}

/// The replay clock of a symbol: the smallest duration of its ladder, or
/// 60 s for an empty ladder.
pub fn entry_timeframe(ladder: &Vec<u64>) -> (tf: u64)
    ensures
        tf == match ladder_min(ladder@) {
            Some(m) => m,
            None => 60,
        },
{
    let mut best: Option<u64> = None;
    let mut i: usize = 0;
    while i < ladder.len()
        invariant
            i <= ladder@.len(),
            best == ladder_min(ladder@.take(i as int)),
        decreases ladder.len() - i,
    {
        proof {
            assert(ladder@.take(i + 1).drop_last() =~= ladder@.take(i as int));
        }
        let d = ladder[i];
        best = match best {
            None => Some(d),
            Some(m) => Some(if d < m { d } else { m }),
        };
        i = i + 1;
    }
    assert(ladder@.take(ladder@.len() as int) =~= ladder@);
    match best {
        Some(m) => m,
        None => 60,
    }
}

/// The duration that sets a symbol's burn-in depth: the largest duration
/// of its ladder, or 900 s for an empty ladder.
pub fn warmup_timeframe(ladder: &Vec<u64>) -> (tf: u64)
    ensures
        tf == match ladder_max(ladder@) {
            Some(m) => m,
            None => 900,
        },
{
    let mut best: Option<u64> = None;
    let mut i: usize = 0;
    while i < ladder.len()
        invariant
            i <= ladder@.len(),
            best == ladder_max(ladder@.take(i as int)),
        decreases ladder.len() - i,
    {
        proof {
            assert(ladder@.take(i + 1).drop_last() =~= ladder@.take(i as int));
        }
        let d = ladder[i];
        best = match best {
            None => Some(d),
            Some(m) => Some(if d > m { d } else { m }),
        };
        i = i + 1;
    }
    assert(ladder@.take(ladder@.len() as int) =~= ladder@);
    match best {
        Some(m) => m,
        None => 900,
    }
}

} // verus!
