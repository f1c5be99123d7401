//! The historical replay clock: where a symbol's archive window starts,
//! the simulated funding boundaries, and the one global order in which the
//! symbols' entry bars are replayed.
use vstd::prelude::*;
use crate::backtest::{ladder_max, warmup_timeframe};
use crate::models::Direction;
use crate::text::chars_of;

verus! {

// ---------------------------------------------------------------------
// Archive window
// ---------------------------------------------------------------------

/// `x` clamped into the range of `i64`.
pub open spec fn clamp_i64(x: int) -> int {
    if x < i64::MIN {
        i64::MIN as int
    } else if x > i64::MAX {
        i64::MAX as int
    } else {
        x
    }
}

/// The slowest duration of a ladder, or 900 s for an empty one.
pub open spec fn warmup_tf_spec(ladder: Seq<u64>) -> int {
    match ladder_max(ladder) {
        Some(m) => m as int,
        None => 900,
    }
}

/// The first second of archive to load for a symbol: `warmup_bars` bars
/// of its slowest duration before the window opens (saturating at the
/// range of `i64`), so every duration is converged when the window opens.
pub fn burn_in_start(from_secs: i64, warmup_bars: u32, ladder: &Vec<u64>) -> (start: i64)
    requires
        warmup_bars * warmup_tf_spec(ladder@) <= i64::MAX,
    ensures
        start == clamp_i64(from_secs - warmup_bars * warmup_tf_spec(ladder@)),
{
    let max_tf = warmup_timeframe(ladder);
    assert(max_tf == warmup_tf_spec(ladder@));
    let burn_in: i64 = if warmup_bars == 0 {
        0
    } else {
        assert(max_tf <= warmup_bars * max_tf) by (nonlinear_arith)
            requires
                warmup_bars >= 1,
        ;
        assert(0 <= warmup_bars * max_tf) by (nonlinear_arith);
        (warmup_bars as i64) * (max_tf as i64)
    };
    assert(burn_in == warmup_bars * warmup_tf_spec(ladder@));
    if from_secs >= i64::MIN + burn_in {
        from_secs - burn_in
    } else {
        i64::MIN
    }
}

// ---------------------------------------------------------------------
// Funding clock
// ---------------------------------------------------------------------

/// Funding settles every 8 h of simulated replay time.
pub const FUNDING_INTERVAL_SECS: i64 = 28800;

/// The first funding boundary after the replay's first bar: the next
/// multiple of the interval strictly after `first_ts` (each step
/// saturating at the range of `i64`).
pub open spec fn first_boundary_spec(first_ts: i64) -> int {
    clamp_i64(clamp_i64((first_ts as int / FUNDING_INTERVAL_SECS as int) * FUNDING_INTERVAL_SECS) + FUNDING_INTERVAL_SECS)
}

/// The first funding boundary after the replay's first bar.
pub fn first_funding_boundary(first_ts: i64) -> (next: i64)
    ensures
        next == first_boundary_spec(first_ts),
{
    let q: i64 = match first_ts.checked_div_euclid(FUNDING_INTERVAL_SECS) {
        Some(q) => q,
        None => 0,
    };
    assert(q == first_ts as int / FUNDING_INTERVAL_SECS as int);
    let base: i64 = match q.checked_mul(FUNDING_INTERVAL_SECS) {
        Some(b) => b,
        None => if q < 0 {
            i64::MIN
        } else {
            i64::MAX
        },
    };
    assert(base == clamp_i64(q * FUNDING_INTERVAL_SECS));
    if base <= i64::MAX - FUNDING_INTERVAL_SECS {
        base + FUNDING_INTERVAL_SECS
    } else {
        i64::MAX
    }
}

/// The funding boundaries crossed when the replay clock reaches `ts`,
/// starting from the pending boundary `next`: how many settle, and the
/// boundary pending afterwards (saturating at `i64::MAX`). `ts` below
/// `i64::MAX` keeps the settling loop finite.
pub fn settle_funding_until(next: i64, ts: i64) -> (r: (u64, i64))
    requires
        ts < i64::MAX,
    ensures
        (r.0 == 0) <==> (ts < next),
        r.0 > 0 ==> next + (r.0 - 1) * FUNDING_INTERVAL_SECS <= ts < next + r.0 * FUNDING_INTERVAL_SECS,
        r.1 == clamp_i64(next + r.0 * FUNDING_INTERVAL_SECS),
{
    let mut cur: i64 = next;
    let mut count: u64 = 0;
    while ts >= cur
        invariant
            ts < i64::MAX,
            cur == clamp_i64(next + count * FUNDING_INTERVAL_SECS),
            count > 0 ==> next + (count - 1) * FUNDING_INTERVAL_SECS <= ts,
        decreases i64::MAX - cur,
    {
        assert(cur == next + count * FUNDING_INTERVAL_SECS);
        assert(next + (count + 1) * FUNDING_INTERVAL_SECS == next + count * FUNDING_INTERVAL_SECS
            + FUNDING_INTERVAL_SECS);
        if cur <= i64::MAX - FUNDING_INTERVAL_SECS {
            cur = cur + FUNDING_INTERVAL_SECS;
        } else {
            cur = i64::MAX;
        }
        count = count + 1;
    }
    (count, cur)
}

/// The first funding boundary lies on the 8-hour grid, strictly after the
/// replay's first bar and at most one interval later (away from the edges
/// of the `i64` range, where the computation saturates).
pub proof fn lemma_first_boundary_on_grid(first_ts: i64)
    requires
        i64::MIN + FUNDING_INTERVAL_SECS <= first_ts <= i64::MAX - 2 * FUNDING_INTERVAL_SECS,
    ensures
        first_boundary_spec(first_ts) % FUNDING_INTERVAL_SECS as int == 0,
        first_ts < first_boundary_spec(first_ts) <= first_ts + FUNDING_INTERVAL_SECS,
{
    let x = first_ts as int;
    let d = FUNDING_INTERVAL_SECS as int;
    let q = x / d;
    assert(q * d <= x < q * d + d) by (nonlinear_arith)
        requires
            d == 28800,
            q == x / d,
    ;
    assert((q * d + d) % d == 0) by (nonlinear_arith)
        requires
            d == 28800,
    ;
    assert(clamp_i64(q * d) == q * d);
    assert(first_boundary_spec(first_ts) == q * d + d);
}

// ---------------------------------------------------------------------
// Trade records
// ---------------------------------------------------------------------

/// The direction label of a closed trade: `LONG`, `SHORT`, or `UNKNOWN`
/// when the close carried no direction.
pub open spec fn direction_label_spec(d: Option<Direction>) -> &'static str {
    match d {
        Some(Direction::Long) => "LONG",
        Some(Direction::Short) => "SHORT",
        None => "UNKNOWN",
    }
}

/// The direction label of a closed trade.
pub fn trade_direction_label(d: Option<Direction>) -> (label: &'static str)
    ensures
        label == direction_label_spec(d),
{
    match d {
        Some(Direction::Long) => "LONG",
        Some(Direction::Short) => "SHORT",
        None => "UNKNOWN",
    }
}

/// How long a trade was held: from its recorded entry to its exit, or
/// zero when no entry time was recorded (a non-positive entry time).
pub fn hold_secs(entry_secs: i64, exit_secs: i64) -> (held: i64)
    requires
        entry_secs > 0 ==> i64::MIN <= exit_secs - entry_secs,
    ensures
        held == if entry_secs > 0 { exit_secs - entry_secs } else { 0 },
{
    if entry_secs > 0 {
        exit_secs - entry_secs
    } else {
        0
    }
}

// ---------------------------------------------------------------------
// Replay order
// ---------------------------------------------------------------------

/// Strict lexicographic order on character sequences, by code point (the
/// order of the UTF-8 bytes that `str` compares).
pub open spec fn lex_lt(a: Seq<char>, b: Seq<char>) -> bool
    decreases a.len(),
{
    if a.len() == 0 {
        b.len() > 0
    } else if b.len() == 0 {
        false
    } else if a[0] != b[0] {
        a[0] < b[0]
    } else {
        lex_lt(a.drop_first(), b.drop_first())
    }
}

pub(crate) proof fn lemma_lex_irreflexive(a: Seq<char>)
    ensures
        !lex_lt(a, a),
    decreases a.len(),
{
    if a.len() > 0 {
        lemma_lex_irreflexive(a.drop_first());
    }
}

pub(crate) proof fn lemma_lex_transitive(a: Seq<char>, b: Seq<char>, c: Seq<char>)
    requires
        lex_lt(a, b),
        lex_lt(b, c),
    ensures
        lex_lt(a, c),
    decreases a.len(),
{
    if a.len() > 0 && a[0] == b[0] && b[0] == c[0] {
        lemma_lex_transitive(a.drop_first(), b.drop_first(), c.drop_first());
    }
}

pub(crate) proof fn lemma_lex_total(a: Seq<char>, b: Seq<char>)
    requires
        !lex_lt(a, b),
        !lex_lt(b, a),
    ensures
        a == b,
    decreases a.len(),
{
    if a.len() > 0 {
        assert(b.len() > 0);
        assert(a[0] == b[0]);
        lemma_lex_total(a.drop_first(), b.drop_first());
        assert(a.len() == b.len());
        assert forall|i: int| 0 <= i < a.len() implies a[i] == b[i] by {
            if i > 0 {
                assert(a[i] == a.drop_first()[i - 1]);
                assert(b[i] == b.drop_first()[i - 1]);
            }
        }
    }
    assert(a =~= b);
}

/// True when `a` sorts strictly before `b`, character by character.
pub fn lex_less(a: &str, b: &str) -> (r: bool)
    ensures
        r == lex_lt(a@, b@),
{
    let av = chars_of(a);
    let bv = chars_of(b);
    let mut i: usize = 0;
    assert(a@.skip(0) =~= a@);
    assert(b@.skip(0) =~= b@);
    while i < av.len() && i < bv.len()
        invariant
            av@ == a@,
            bv@ == b@,
            i <= av@.len(),
            i <= bv@.len(),
            lex_lt(a@, b@) == lex_lt(a@.skip(i as int), b@.skip(i as int)),
        decreases av.len() - i,
    {
        if av[i] != bv[i] {
            assert(a@.skip(i as int)[0] == av@[i as int]);
            assert(b@.skip(i as int)[0] == bv@[i as int]);
            return av[i] < bv[i];
        }
        assert(a@.skip(i as int).drop_first() =~= a@.skip(i + 1));
        assert(b@.skip(i as int).drop_first() =~= b@.skip(i + 1));
        i = i + 1;
    }
    i < bv.len()
}

/// One entry bar of one symbol, as the replay sees it.
#[derive(Debug, Clone, PartialEq, Eq)]
pub struct ReplayEvent {
    pub ts: u64,
    pub symbol: String,
}

/// `a` replays before `b`: an earlier bar first, and at one time the
/// symbol that sorts first.
pub open spec fn event_before(a: ReplayEvent, b: ReplayEvent) -> bool {
    a.ts < b.ts || (a.ts == b.ts && lex_lt(a.symbol@, b.symbol@))
}

/// `a` and `b` are bars of one symbol at one time.
pub open spec fn same_slot(a: ReplayEvent, b: ReplayEvent) -> bool {
    a.ts == b.ts && a.symbol@ == b.symbol@
}

/// The bar falls inside the replay window `from_secs..=to_secs` (its time
/// read as a signed second count).
pub open spec fn in_window(ts: u64, from_secs: i64, to_secs: i64) -> bool {
    (ts as i64) >= from_secs && (ts as i64) <= to_secs
}

proof fn lemma_before_asymmetric(a: ReplayEvent, b: ReplayEvent)
    requires
        event_before(a, b),
    ensures
        !event_before(b, a),
        !same_slot(a, b),
{
    if a.ts == b.ts && lex_lt(a.symbol@, b.symbol@) && lex_lt(b.symbol@, a.symbol@) {
        lemma_lex_transitive(a.symbol@, b.symbol@, a.symbol@);
        lemma_lex_irreflexive(a.symbol@);
    }
    if same_slot(a, b) {
        lemma_lex_irreflexive(a.symbol@);
    }
}

proof fn lemma_before_then_not_after(a: ReplayEvent, b: ReplayEvent, c: ReplayEvent)
    requires
        event_before(a, b),
        !event_before(c, b),
    ensures
        event_before(a, c),
{
    if event_before(b, c) {
        if a.ts == b.ts && b.ts == c.ts {
            lemma_lex_transitive(a.symbol@, b.symbol@, c.symbol@);
        }
    } else {
        if b.ts == c.ts {
            lemma_lex_total(b.symbol@, c.symbol@);
        }
    }
}

fn event_before_exec(a: &ReplayEvent, b: &ReplayEvent) -> (r: bool)
    ensures
        r == event_before(*a, *b),
{
    if a.ts < b.ts {
        true
    } else if a.ts == b.ts {
        lex_less(a.symbol.as_str(), b.symbol.as_str())
    } else {
        false
    }
}

/// `order` visits the entry bars as the replay does: the positions of
/// exactly the bars inside the window, each once, ascending by time with
/// ties broken by symbol name, and bars of one symbol at one time kept in
/// their input order.
pub open spec fn is_replay_order(events: Seq<ReplayEvent>, from_secs: i64, to_secs: i64, order: Seq<usize>) -> bool {
    &&& forall|q: int|
        0 <= q < order.len() ==> #[trigger] order[q] < events.len() && in_window(
            events[order[q] as int].ts,
            from_secs,
            to_secs,
        )
    &&& forall|i: int|
        0 <= i < events.len() && in_window(#[trigger] events[i].ts, from_secs, to_secs)
            ==> order.contains(i as usize)
    &&& order.no_duplicates()
    &&& forall|i: int, j: int|
        0 <= i < j < order.len() ==> !event_before(events[order[j] as int], events[order[i] as int])
    &&& forall|i: int, j: int|
        0 <= i < j < order.len() && same_slot(events[order[i] as int], events[order[j] as int])
            ==> order[i] < order[j]
}

/// The replay order of the entry bars (see [`is_replay_order`]).
pub fn replay_order(events: &Vec<ReplayEvent>, from_secs: i64, to_secs: i64) -> (order: Vec<usize>)
    ensures
        is_replay_order(events@, from_secs, to_secs, order@),
{
    let mut order: Vec<usize> = Vec::new();
    let mut k: usize = 0;
    while k < events.len()
        invariant
            k <= events@.len(),
            forall|q: int|
                0 <= q < order@.len() ==> #[trigger] order@[q] < k && in_window(
                    events@[order@[q] as int].ts,
                    from_secs,
                    to_secs,
                ),
            forall|i: int|
                0 <= i < k && in_window(#[trigger] events@[i].ts, from_secs, to_secs)
                    ==> order@.contains(i as usize),
            order@.no_duplicates(),
            forall|i: int, j: int|
                0 <= i < j < order@.len() ==> !event_before(
                    events@[order@[j] as int],
                    events@[order@[i] as int],
                ),
            forall|i: int, j: int|
                0 <= i < j < order@.len() && same_slot(events@[order@[i] as int], events@[order@[j] as int])
                    ==> order@[i] < order@[j],
        decreases events.len() - k,
    {
        let ts = events[k].ts;
        if (ts as i64) >= from_secs && (ts as i64) <= to_secs {
            let mut p: usize = order.len();
            while p > 0 && event_before_exec(&events[k], &events[order[p - 1]])
                invariant
                    p <= order@.len(),
                    k < events@.len(),
                    forall|q: int| 0 <= q < order@.len() ==> #[trigger] order@[q] < k,
                    forall|q: int|
                        p <= q < order@.len() ==> event_before(
                            events@[k as int],
                            #[trigger] events@[order@[q] as int],
                        ),
                decreases p,
            {
                p = p - 1;
            }
            let ghost ek = events@[k as int];
            let ghost old_order = order@;
            proof {
                assert forall|q: int| 0 <= q < p implies !event_before(
                    ek,
                    #[trigger] events@[old_order[q] as int],
                ) by {
                    if event_before(ek, events@[old_order[q] as int]) {
                        let last = events@[old_order[p - 1] as int];
                        if q < p - 1 {
                            lemma_before_then_not_after(ek, events@[old_order[q] as int], last);
                        }
                    }
                }
            }
            order.insert(p, k);
            proof {
                old_order.insert_ensures(p as int, k);
                let n = old_order.len();
                assert forall|q: int| 0 <= q < order@.len() implies #[trigger] order@[q] < k + 1
                    && in_window(events@[order@[q] as int].ts, from_secs, to_secs) by {
                    if q < p {
                        assert(order@[q] == old_order[q]);
                    } else if q > p {
                        assert(order@[q] == old_order[q - 1]);
                    }
                }
                assert forall|i: int|
                    0 <= i < k + 1 && in_window(#[trigger] events@[i].ts, from_secs, to_secs)
                        implies order@.contains(i as usize) by {
                    if i == k {
                        assert(order@[p as int] == k);
                    } else {
                        assert(old_order.contains(i as usize));
                        let q = choose|q: int| 0 <= q < n && old_order[q] == i as usize;
                        if q < p {
                            assert(order@[q] == old_order[q]);
                        } else {
                            assert(order@[q + 1] == old_order[q]);
                        }
                    }
                }
                assert forall|a: int, b: int| 0 <= a < order@.len() && 0 <= b < order@.len() && a != b
                    implies order@[a] != order@[b] by {
                    let oa = if a < p { a } else if a > p { a - 1 } else { -1 };
                    let ob = if b < p { b } else if b > p { b - 1 } else { -1 };
                    if oa >= 0 {
                        assert(order@[a] == old_order[oa]);
                    }
                    if ob >= 0 {
                        assert(order@[b] == old_order[ob]);
                    }
                }
                assert forall|i: int, j: int| 0 <= i < j < order@.len() implies !event_before(
                    events@[order@[j] as int],
                    events@[order@[i] as int],
                ) && (same_slot(events@[order@[i] as int], events@[order@[j] as int])
                    ==> order@[i] < order@[j]) by {
                    if j < p {
                        assert(order@[i] == old_order[i]);
                        assert(order@[j] == old_order[j]);
                    } else if j == p {
                        assert(order@[i] == old_order[i]);
                        assert(!event_before(ek, events@[old_order[i] as int]));
                    } else if i < p {
                        assert(order@[i] == old_order[i]);
                        assert(order@[j] == old_order[j - 1]);
                    } else if i == p {
                        assert(order@[j] == old_order[j - 1]);
                        assert(event_before(ek, events@[old_order[j - 1] as int]));
                        lemma_before_asymmetric(ek, events@[old_order[j - 1] as int]);
                    } else {
                        assert(order@[i] == old_order[i - 1]);
                        assert(order@[j] == old_order[j - 1]);
                    }
                }
            }
        }
        k = k + 1;
    }
    order
}

/// Two visiting sequences over the same positions, each ascending by bar
/// and then by position, are the same sequence.
proof fn lemma_ascending_enumerations_equal(events: Seq<ReplayEvent>, s1: Seq<usize>, s2: Seq<usize>)
    requires
        s1.no_duplicates(),
        s2.no_duplicates(),
        forall|x: usize| s1.contains(x) <==> s2.contains(x),
        forall|q: int| 0 <= q < s1.len() ==> #[trigger] s1[q] < events.len(),
        forall|q: int| 0 <= q < s2.len() ==> #[trigger] s2[q] < events.len(),
        forall|i: int, j: int|
            0 <= i < j < s1.len() ==> !event_before(events[s1[j] as int], events[s1[i] as int]),
        forall|i: int, j: int|
            0 <= i < j < s1.len() && same_slot(events[s1[i] as int], events[s1[j] as int]) ==> s1[i] < s1[j],
        forall|i: int, j: int|
            0 <= i < j < s2.len() ==> !event_before(events[s2[j] as int], events[s2[i] as int]),
        forall|i: int, j: int|
            0 <= i < j < s2.len() && same_slot(events[s2[i] as int], events[s2[j] as int]) ==> s2[i] < s2[j],
    ensures
        s1 == s2,
    decreases s1.len(),
{
    if s1.len() == 0 {
        if s2.len() > 0 {
            assert(s2.contains(s2[0]));
        }
        assert(s1 =~= s2);
    } else {
        assert(s1.contains(s1[0]));
        assert(s2.len() > 0);
        let x = s1[0];
        let y = s2[0];
        if x != y {
            assert(s2.contains(x));
            assert(s1.contains(y));
            let q = choose|q: int| 0 <= q < s2.len() && s2[q] == x;
            let r = choose|r: int| 0 <= r < s1.len() && s1[r] == y;
            assert(q > 0 && r > 0);
            let ex = events[x as int];
            let ey = events[y as int];
            assert(!event_before(ex, ey));
            assert(!event_before(ey, ex));
            lemma_lex_total(ex.symbol@, ey.symbol@);
            assert(same_slot(ex, ey));
            assert(same_slot(events[s2[0] as int], events[s2[q] as int]));
            assert(same_slot(events[s1[0] as int], events[s1[r] as int]));
            assert(y < x && x < y);
        }
        assert(x == y);
        let t1 = s1.drop_first();
        let t2 = s2.drop_first();
        assert forall|z: usize| t1.contains(z) <==> t2.contains(z) by {
            if t1.contains(z) {
                let i = choose|i: int| 0 <= i < t1.len() && t1[i] == z;
                assert(s1[i + 1] == z);
                assert(s1.contains(z));
                assert(z != x);
                let k = choose|k: int| 0 <= k < s2.len() && s2[k] == z;
                assert(k != 0);
                assert(t2[k - 1] == z);
            }
            if t2.contains(z) {
                let i = choose|i: int| 0 <= i < t2.len() && t2[i] == z;
                assert(s2[i + 1] == z);
                assert(s2.contains(z));
                assert(z != y);
                let k = choose|k: int| 0 <= k < s1.len() && s1[k] == z;
                assert(k != 0);
                assert(t1[k - 1] == z);
            }
        }
        assert forall|i: int, j: int| 0 <= i < j < t1.len() implies !event_before(
            events[t1[j] as int],
            events[t1[i] as int],
        ) && (same_slot(events[t1[i] as int], events[t1[j] as int]) ==> t1[i] < t1[j]) by {
            assert(t1[i] == s1[i + 1] && t1[j] == s1[j + 1]);
        }
        assert forall|i: int, j: int| 0 <= i < j < t2.len() implies !event_before(
            events[t2[j] as int],
            events[t2[i] as int],
        ) && (same_slot(events[t2[i] as int], events[t2[j] as int]) ==> t2[i] < t2[j]) by {
            assert(t2[i] == s2[i + 1] && t2[j] == s2[j + 1]);
        }
        assert forall|a: int, b: int| 0 <= a < t1.len() && 0 <= b < t1.len() && a != b implies t1[a]
            != t1[b] by {
            assert(t1[a] == s1[a + 1] && t1[b] == s1[b + 1]);
        }
        assert forall|a: int, b: int| 0 <= a < t2.len() && 0 <= b < t2.len() && a != b implies t2[a]
            != t2[b] by {
            assert(t2[a] == s2[a + 1] && t2[b] == s2[b + 1]);
        }
        assert forall|q: int| 0 <= q < t1.len() implies #[trigger] t1[q] < events.len() by {
            assert(t1[q] == s1[q + 1]);
        }
        assert forall|q: int| 0 <= q < t2.len() implies #[trigger] t2[q] < events.len() by {
            assert(t2[q] == s2[q + 1]);
        }
        lemma_ascending_enumerations_equal(events, t1, t2);
        assert(s1 =~= s2) by {
            assert forall|i: int| 0 <= i < s1.len() implies s1[i] == s2[i] by {
                if i > 0 {
                    assert(s1[i] == t1[i - 1]);
                    assert(s2[i] == t2[i - 1]);
                }
            }
        }
    }
}

/// The replay order is determined by the bars and the window alone: any
/// two visiting sequences that meet [`is_replay_order`] are equal, so a
/// replay of the same archive always visits its bars in the same order.
pub proof fn lemma_replay_order_unique(
    events: Seq<ReplayEvent>,
    from_secs: i64,
    to_secs: i64,
    o1: Seq<usize>,
    o2: Seq<usize>,
)
    requires
        is_replay_order(events, from_secs, to_secs, o1),
        is_replay_order(events, from_secs, to_secs, o2),
    ensures
        o1 == o2,
{
    assert forall|x: usize| o1.contains(x) <==> o2.contains(x) by {
        if o1.contains(x) {
            let q = choose|q: int| 0 <= q < o1.len() && o1[q] == x;
            assert(o1[q] < events.len());
            assert(in_window(events[x as int].ts, from_secs, to_secs));
        }
        if o2.contains(x) {
            let q = choose|q: int| 0 <= q < o2.len() && o2[q] == x;
            assert(o2[q] < events.len());
            assert(in_window(events[x as int].ts, from_secs, to_secs));
        }
    }
    lemma_ascending_enumerations_equal(events, o1, o2);
}

} // verus!
