//! Duration-keyed timeframe identity.
//!
//! A timeframe *is* its duration in seconds. The supported pool is a closed
//! set of fourteen durations; every label, table and ladder in the platform
//! is derived from it.
use vstd::prelude::*;
use crate::text::{
    all_ascii_digits, ascii_upper_char, ascii_uppercase_chars, char_eq_ignore_ascii_case, chars_eq_ignore_ascii_case,
    chars_of, decimal_text, eq_ignore_ascii_case_seq, is_ascii_digit, is_unicode_whitespace,
    is_ascii_lower, is_ascii_upper, lemma_decimal_text, lemma_parse_decimal_text, parse_u64, parse_u64_text, push_decimal,
    string_from_chars, trim_chars, trim_end_seq, trim_seq, trim_start_seq,
};

verus! {

/// The supported duration pool, fastest to slowest.
pub const SUPPORTED_DURATIONS: [u64; 14] = [
    1, 3, 5, 15, 30, 60, 180, 300, 900, 1800, 3600, 14400, 43200, 86400,
];

/// The default active ladder: the fastest eight durations of the pool.
pub const DEFAULT_TIMEFRAMES: [u64; 8] = [1, 3, 5, 15, 30, 60, 180, 300];

/// The pool as a sequence (mirrors `SUPPORTED_DURATIONS`).
pub open spec fn pool_seq() -> Seq<u64> {
    seq![1u64, 3, 5, 15, 30, 60, 180, 300, 900, 1800, 3600, 14400, 43200, 86400]
}

/// `secs` is a member of the supported pool.
pub open spec fn is_supported(secs: u64) -> bool {
    ||| secs == 1
    ||| secs == 3
    ||| secs == 5
    ||| secs == 15
    ||| secs == 30
    ||| secs == 60
    ||| secs == 180
    ||| secs == 300
    ||| secs == 900
    ||| secs == 1800
    ||| secs == 3600
    ||| secs == 14400
    ||| secs == 43200
    ||| secs == 86400
}

/// Membership in the pool is exactly `is_supported`, and the pool is
/// strictly ascending.
pub proof fn lemma_pool_shape()
    ensures
        pool_seq().len() == 14,
        forall|i: int, j: int| 0 <= i < j < 14 ==> pool_seq()[i] < pool_seq()[j],
        forall|i: int| 0 <= i < 14 ==> is_supported(#[trigger] pool_seq()[i]),
        forall|s: u64| is_supported(s) ==> pool_seq().contains(s),
{
    assert forall|s: u64| is_supported(s) implies pool_seq().contains(s) by {
        if s == 1 { assert(pool_seq()[0] == s); }
        else if s == 3 { assert(pool_seq()[1] == s); }
        else if s == 5 { assert(pool_seq()[2] == s); }
        else if s == 15 { assert(pool_seq()[3] == s); }
        else if s == 30 { assert(pool_seq()[4] == s); }
        else if s == 60 { assert(pool_seq()[5] == s); }
        else if s == 180 { assert(pool_seq()[6] == s); }
        else if s == 300 { assert(pool_seq()[7] == s); }
        else if s == 900 { assert(pool_seq()[8] == s); }
        else if s == 1800 { assert(pool_seq()[9] == s); }
        else if s == 3600 { assert(pool_seq()[10] == s); }
        else if s == 14400 { assert(pool_seq()[11] == s); }
        else if s == 43200 { assert(pool_seq()[12] == s); }
        else { assert(pool_seq()[13] == s); }
    }
}

/// The pool entry at position `k`.
pub fn supported_duration_at(k: usize) -> (d: u64)
    requires
        k < 14,
    ensures
        d == pool_seq()[k as int],
{
    match k {
        0 => 1,
        1 => 3,
        2 => 5,
        3 => 15,
        4 => 30,
        5 => 60,
        6 => 180,
        7 => 300,
        8 => 900,
        9 => 1800,
        10 => 3600,
        11 => 14400,
        12 => 43200,
        _ => 86400,
    }
}

/// True when `secs` is a member of the supported pool.
pub fn is_supported_duration(secs: u64) -> (b: bool)
    ensures
        b == is_supported(secs),
{
    secs == 1 || secs == 3 || secs == 5 || secs == 15 || secs == 30 || secs == 60 || secs == 180
        || secs == 300 || secs == 900 || secs == 1800 || secs == 3600 || secs == 14400 || secs
        == 43200 || secs == 86400
}

// ---------------------------------------------------------------------
// Labels
// ---------------------------------------------------------------------

/// The unit letter of a duration's label.
pub open spec fn label_unit(secs: u64) -> char {
    if secs == 60 || secs == 180 || secs == 300 || secs == 900 || secs == 1800 {
        'm'
    } else if secs == 3600 || secs == 14400 || secs == 43200 {
        'h'
    } else if secs == 86400 {
        'd'
    } else {
        's'
    }
}

/// The number in front of the unit letter.
pub open spec fn label_number(secs: u64) -> u64 {
    if secs == 60 || secs == 3600 || secs == 86400 {
        1
    } else if secs == 180 {
        3
    } else if secs == 300 {
        5
    } else if secs == 900 {
        15
    } else if secs == 1800 {
        30
    } else if secs == 14400 {
        4
    } else if secs == 43200 {
        12
    } else {
        secs
    }
}

/// The canonical label: `1s`..`30s`, `1m`..`30m`, `1h`, `4h`, `12h`, `1d`
/// for the pool, and `<secs>s` for any other duration.
pub open spec fn duration_label_seq(secs: u64) -> Seq<char> {
    decimal_text(label_number(secs) as nat).push(label_unit(secs))
}

fn duration_label_chars(secs: u64) -> (out: Vec<char>)
    ensures
        out@ == duration_label_seq(secs),
{
    let (number, unit): (u64, char) = if secs == 60 || secs == 3600 || secs == 86400 {
        (1, if secs == 60 { 'm' } else if secs == 3600 { 'h' } else { 'd' })
    } else if secs == 180 {
        (3, 'm')
    } else if secs == 300 {
        (5, 'm')
    } else if secs == 900 {
        (15, 'm')
    } else if secs == 1800 {
        (30, 'm')
    } else if secs == 14400 {
        (4, 'h')
    } else if secs == 43200 {
        (12, 'h')
    } else {
        (secs, 's')
    };
    let mut out: Vec<char> = Vec::new();
    push_decimal(&mut out, number);
    out.push(unit);
    assert(out@ =~= duration_label_seq(secs));
    out
}

/// Canonical display label for a duration ("1s".."1d"); durations outside
/// the pool read "<secs>s".
pub fn duration_label(secs: u64) -> (label: String)
    ensures
        label@ == duration_label_seq(secs),
{
    let chars = duration_label_chars(secs);
    string_from_chars(&chars)
}

/// Uppercase display label ("1S", "5M", "1H", "1D") for table headers.
pub fn duration_label_upper(secs: u64) -> (label: String)
    ensures
        label@ == duration_label_seq(secs).map_values(|c: char| ascii_upper_char(c)),
{
    let chars = duration_label_chars(secs);
    let upper = ascii_uppercase_chars(&chars);
    string_from_chars(&upper)
}

/// The canonical timeframe label (alias of [`duration_label`]).
pub fn slot_label_for(secs: u64) -> (label: String)
    ensures
        label@ == duration_label_seq(secs),
{
    duration_label(secs)
}

// ---------------------------------------------------------------------
// Label parsing
// ---------------------------------------------------------------------

/// The first pool duration, scanning from position `k`, whose label equals
/// `t` ignoring ASCII case.
pub open spec fn pool_label_match(t: Seq<char>, k: int) -> Option<u64>
    decreases 14 - k,
{
    if k < 0 || k >= 14 {
        None
    } else if eq_ignore_ascii_case_seq(duration_label_seq(pool_seq()[k]), t) {
        Some(pool_seq()[k])
    } else {
        pool_label_match(t, k + 1)
    }
}

/// `t` without one trailing `s`, if it has one.
pub open spec fn strip_trailing_s(t: Seq<char>) -> Seq<char> {
    if t.len() > 0 && t.last() == 's' {
        t.drop_last()
    } else {
        t
    }
}

/// What `duration_from_label` returns: the pool duration whose label
/// matches the trimmed text ignoring ASCII case; otherwise the trimmed text,
/// without one trailing `s`, parsed as a `u64`.
pub open spec fn duration_from_label_spec(label: Seq<char>) -> Option<u64> {
    let t = trim_seq(label);
    match pool_label_match(t, 0) {
        Some(d) => Some(d),
        None => parse_u64_text(strip_trailing_s(t)),
    }
}

/// Reverse of [`duration_label`]: parses a canonical label ("1s".."1d") or a
/// raw seconds string ("60s" / "60") back into seconds.
pub fn duration_from_label(label: &str) -> (r: Option<u64>)
    ensures
        r == duration_from_label_spec(label@),
{
    let raw = chars_of(label);
    let t = trim_chars(&raw);
    let mut k: usize = 0;
    while k < 14
        invariant
            k <= 14,
            t@ == trim_seq(label@),
            pool_label_match(t@, 0) == pool_label_match(t@, k as int),
        decreases 14 - k,
    {
        let d = supported_duration_at(k);
        let candidate = duration_label_chars(d);
        if chars_eq_ignore_ascii_case(&candidate, &t) {
            return Some(d);
        }
        k = k + 1;
    }
    let mut body = t;
    let n = body.len();
    if n > 0 && body[n - 1] == 's' {
        body.pop();
    }
    assert(body@ =~= strip_trailing_s(t@));
    parse_u64(&body)
}

/// True when `label` is, ignoring ASCII case, the label of a pool duration.
pub fn is_pool_label(label: &str) -> (b: bool)
    ensures
        b == (pool_label_match(label@, 0) is Some),
{
    let t = chars_of(label);
    let mut k: usize = 0;
    while k < 14
        invariant
            k <= 14,
            t@ == label@,
            pool_label_match(t@, 0) == pool_label_match(t@, k as int),
        decreases 14 - k,
    {
        let d = supported_duration_at(k);
        let candidate = duration_label_chars(d);
        if chars_eq_ignore_ascii_case(&candidate, &t) {
            return true;
        }
        k = k + 1;
    }
    false
}

/// No label character is whitespace, so trimming a label leaves it as is.
proof fn lemma_label_trim(secs: u64)
    ensures
        trim_seq(duration_label_seq(secs)) == duration_label_seq(secs),
{
    let l = duration_label_seq(secs);
    let d = decimal_text(label_number(secs) as nat);
    lemma_decimal_text(label_number(secs) as nat);
    assert(is_ascii_digit(d[0]));
    assert(l[0] == d[0]);
    assert(!is_unicode_whitespace(l[0]));
    assert(trim_start_seq(l) == l);
    assert(l.last() == label_unit(secs));
    assert(trim_end_seq(l) == l);
}

/// Two labels that agree ignoring ASCII case, one of a pool duration, come
/// from the same duration.
proof fn lemma_label_match_unique(a: u64, n: u64)
    requires
        is_supported(a),
        eq_ignore_ascii_case_seq(duration_label_seq(a), duration_label_seq(n)),
    ensures
        a == n,
{
    let x = duration_label_seq(a);
    let y = duration_label_seq(n);
    let p = decimal_text(label_number(a) as nat);
    let q = decimal_text(label_number(n) as nat);
    lemma_decimal_text(label_number(a) as nat);
    lemma_decimal_text(label_number(n) as nat);
    assert(p.len() == q.len());
    assert(char_eq_ignore_ascii_case(x[x.len() - 1], y[y.len() - 1]));
    assert(label_unit(a) == label_unit(n));
    assert forall|i: int| 0 <= i < p.len() implies p[i] == q[i] by {
        assert(x[i] == p[i]);
        assert(y[i] == q[i]);
        assert(char_eq_ignore_ascii_case(x[i], y[i]));
        assert(is_ascii_digit(p[i]));
        assert(is_ascii_digit(q[i]));
    }
    assert(p =~= q);
    assert(label_number(a) == label_number(n));
}

/// Parsing a label gives back the duration it was made from, for every
/// `u64` duration.
pub proof fn lemma_label_round_trip(secs: u64)
    ensures
        duration_from_label_spec(duration_label_seq(secs)) == Some(secs),
{
    let l = duration_label_seq(secs);
    lemma_label_trim(secs);
    lemma_pool_shape();
    assert forall|k: int| 0 <= k < 14 && pool_seq()[k] != secs implies !eq_ignore_ascii_case_seq(
        duration_label_seq(#[trigger] pool_seq()[k]),
        l,
    ) by {
        if eq_ignore_ascii_case_seq(duration_label_seq(pool_seq()[k]), l) {
            lemma_label_match_unique(pool_seq()[k], secs);
        }
    }
    lemma_pool_match_scan(l, secs, 0);
    if !is_supported(secs) {
        lemma_parse_decimal_text(secs);
        assert(strip_trailing_s(l) =~= decimal_text(secs as nat));
    }
}

/// The upper-case form of a label character: a letter becomes its capital,
/// which still matches the letter ignoring ASCII case, and anything that
/// matches the capital matches the letter.
proof fn lemma_char_upper(a: char, c: char)
    ensures
        char_eq_ignore_ascii_case(c, ascii_upper_char(c)),
        char_eq_ignore_ascii_case(a, ascii_upper_char(c)) ==> char_eq_ignore_ascii_case(a, c),
{
    if is_ascii_lower(c) {
        let u = ascii_upper_char(c);
        assert((u as u32) == (c as u32) - 32);
        assert(is_ascii_upper(u));
    }
}

/// Scanning the pool from `k` for a text that matches exactly one pool
/// label, that of `secs`, finds `secs`.
proof fn lemma_pool_match_find(t: Seq<char>, secs: u64, k: int)
    requires
        0 <= k <= 14,
        is_supported(secs),
        eq_ignore_ascii_case_seq(duration_label_seq(secs), t),
        forall|j: int| 0 <= j < 14 && pool_seq()[j] != secs ==> !eq_ignore_ascii_case_seq(
            duration_label_seq(#[trigger] pool_seq()[j]),
            t,
        ),
        forall|j: int| 0 <= j < k ==> pool_seq()[j] != secs,
    ensures
        pool_label_match(t, k) == Some(secs),
    decreases 14 - k,
{
    lemma_pool_shape();
    if k < 14 {
        if pool_seq()[k] != secs {
            lemma_pool_match_find(t, secs, k + 1);
        }
    } else {
        assert(pool_seq().contains(secs));
        let j = choose|j: int| 0 <= j < pool_seq().len() && pool_seq()[j] == secs;
        assert(pool_seq()[j] != secs);
    }
}

/// Parsing the upper-case label of a pool duration gives the duration back.
pub proof fn lemma_upper_label_round_trip(secs: u64)
    requires
        is_supported(secs),
    ensures
        duration_from_label_spec(duration_label_seq(secs).map_values(|c: char| ascii_upper_char(c)))
            == Some(secs),
{
    let l = duration_label_seq(secs);
    let u = l.map_values(|c: char| ascii_upper_char(c));
    let d = decimal_text(label_number(secs) as nat);
    lemma_decimal_text(label_number(secs) as nat);
    lemma_pool_shape();
    assert(l[0] == d[0]);
    assert(is_ascii_digit(l[0]));
    assert(u[0] == l[0]);
    assert(!is_unicode_whitespace(u[0]));
    assert(trim_start_seq(u) == u);
    assert(l.last() == label_unit(secs));
    assert(u.last() == ascii_upper_char(label_unit(secs)));
    lemma_char_upper(label_unit(secs), label_unit(secs));
    assert(is_ascii_upper(u.last()));
    assert(!is_unicode_whitespace(u.last()));
    assert(trim_end_seq(u) == u);
    assert(trim_seq(u) == u);
    assert forall|i: int| 0 <= i < l.len() implies #[trigger] char_eq_ignore_ascii_case(l[i], u[i]) by {
        lemma_char_upper(l[i], l[i]);
    }
    assert(eq_ignore_ascii_case_seq(l, u));
    assert forall|j: int| 0 <= j < 14 && pool_seq()[j] != secs implies !eq_ignore_ascii_case_seq(
        duration_label_seq(#[trigger] pool_seq()[j]),
        u,
    ) by {
        let p = duration_label_seq(pool_seq()[j]);
        if eq_ignore_ascii_case_seq(p, u) {
            assert forall|i: int| 0 <= i < p.len() implies #[trigger] char_eq_ignore_ascii_case(p[i], l[i]) by {
                assert(char_eq_ignore_ascii_case(p[i], u[i]));
                lemma_char_upper(p[i], l[i]);
            }
            assert(eq_ignore_ascii_case_seq(p, l));
            lemma_label_match_unique(pool_seq()[j], secs);
        }
    }
    lemma_pool_match_find(u, secs, 0);
}

proof fn lemma_eq_ignore_refl(s: Seq<char>)
    ensures
        eq_ignore_ascii_case_seq(s, s),
{
}

/// Scanning the pool from `k` for the label of `secs` finds `secs` when it
/// is a pool member at or after `k`, and nothing when it is not a member.
proof fn lemma_pool_match_scan(l: Seq<char>, secs: u64, k: int)
    requires
        0 <= k <= 14,
        l == duration_label_seq(secs),
        forall|j: int| 0 <= j < 14 && pool_seq()[j] != secs ==> !eq_ignore_ascii_case_seq(
            duration_label_seq(#[trigger] pool_seq()[j]),
            l,
        ),
        forall|j: int| 0 <= j < k ==> pool_seq()[j] != secs,
    ensures
        is_supported(secs) ==> pool_label_match(l, k) == Some(secs),
        !is_supported(secs) ==> pool_label_match(l, k) is None,
    decreases 14 - k,
{
    lemma_pool_shape();
    if k < 14 {
        if pool_seq()[k] == secs {
            lemma_eq_ignore_refl(l);
        } else {
            lemma_pool_match_scan(l, secs, k + 1);
        }
    } else {
        if is_supported(secs) {
            assert(pool_seq().contains(secs));
            let j = choose|j: int| 0 <= j < pool_seq().len() && pool_seq()[j] == secs;
            assert(pool_seq()[j] != secs);
        }
    }
}

// ---------------------------------------------------------------------
// Ladders
// ---------------------------------------------------------------------

/// The full supported pool as a vector, fastest to slowest.
pub fn supported_durations_vec() -> (v: Vec<u64>)
    ensures
        v@ == pool_seq(),
{
    let mut v: Vec<u64> = Vec::new();
    let mut k: usize = 0;
    while k < 14
        invariant
            k <= 14,
            v@ == pool_seq().subrange(0, k as int),
        decreases 14 - k,
    {
        v.push(supported_duration_at(k));
        k = k + 1;
        assert(v@ =~= pool_seq().subrange(0, k as int));
    }
    assert(pool_seq().subrange(0, 14) =~= pool_seq());
    v
}

/// The default active ladder as a sequence.
pub open spec fn default_timeframes_seq() -> Seq<u64> {
    seq![1u64, 3, 5, 15, 30, 60, 180, 300]
}

/// The default active ladder (`DEFAULT_TIMEFRAMES`).
pub fn default_timeframes() -> (v: Vec<u64>)
    ensures
        v@ == default_timeframes_seq(),
{
    let v = vec![1u64, 3, 5, 15, 30, 60, 180, 300];
    assert(v@ =~= default_timeframes_seq());
    v
}

/// The default ladder is the fastest eight durations of the pool.
pub proof fn lemma_default_is_fastest_eight()
    ensures
        default_timeframes_seq() == pool_seq().take(8),
{
    assert(default_timeframes_seq() =~= pool_seq().take(8));
}

/// `s` is strictly ascending.
pub open spec fn strictly_ascending(s: Seq<u64>) -> bool {
    forall|i: int, j: int| 0 <= i < j < s.len() ==> s[i] < s[j]
}

/// The active ladder healed from a configured list: the pool members that
/// occur in `configured`, once each, fastest first.
pub open spec fn active_ladder(configured: Seq<u64>) -> Seq<u64> {
    pool_seq().filter(|d: u64| configured.contains(d))
}

proof fn lemma_filter_congruent(s: Seq<u64>, p: spec_fn(u64) -> bool, q: spec_fn(u64) -> bool)
    requires
        forall|i: int| 0 <= i < s.len() ==> p(#[trigger] s[i]) == q(s[i]),
    ensures
        s.filter(p) == s.filter(q),
    decreases s.len(),
{
    reveal(Seq::filter);
    if s.len() > 0 {
        assert forall|i: int| 0 <= i < s.drop_last().len() implies p(#[trigger] s.drop_last()[i]) == q(
            s.drop_last()[i],
        ) by {
            assert(s.drop_last()[i] == s[i]);
        }
        lemma_filter_congruent(s.drop_last(), p, q);
        assert(p(s[s.len() - 1]) == q(s[s.len() - 1]));
    }
}

/// Healing is idempotent: healing an already healed ladder gives it back.
pub proof fn lemma_heal_idempotent(configured: Seq<u64>)
    ensures
        active_ladder(active_ladder(configured)) == active_ladder(configured),
{
    let healed = active_ladder(configured);
    let p = |d: u64| healed.contains(d);
    let q = |d: u64| configured.contains(d);
    assert forall|i: int| 0 <= i < pool_seq().len() implies p(#[trigger] pool_seq()[i]) == q(pool_seq()[i]) by {
        let d = pool_seq()[i];
        if configured.contains(d) {
            pool_seq().lemma_filter_contains(q, i);
        }
        if healed.contains(d) {
            pool_seq().lemma_filter_contains_rev(q, d);
        }
    }
    lemma_filter_congruent(pool_seq(), p, q);
}

/// Heals a configured ladder: keeps pool members only, drops duplicates and
/// orders it fastest to slowest.
pub fn heal_ladder(configured: &Vec<u64>) -> (out: Vec<u64>)
    ensures
        out@ == active_ladder(configured@),
        strictly_ascending(out@),
        forall|d: u64| out@.contains(d) <==> (is_supported(d) && configured@.contains(d)),
{
    let mut out: Vec<u64> = Vec::new();
    let mut k: usize = 0;
    let ghost pred = |d: u64| configured@.contains(d);
    proof {
        lemma_pool_shape();
    }
    while k < 14
        invariant
            k <= 14,
            out@ == pool_seq().subrange(0, k as int).filter(pred),
            pred == (|d: u64| configured@.contains(d)),
        decreases 14 - k,
    {
        let d = supported_duration_at(k);
        let mut found = false;
        let mut i: usize = 0;
        while i < configured.len()
            invariant
                i <= configured.len(),
                found == (exists|j: int| 0 <= j < i && configured@[j] == d),
            decreases configured.len() - i,
        {
            if configured[i] == d {
                found = true;
            }
            i = i + 1;
        }
        assert(found == configured@.contains(d));
        proof {
            let a = pool_seq().subrange(0, k as int);
            let b = pool_seq().subrange(0, k + 1);
            assert(b.drop_last() =~= a);
            assert(b.last() == d);
            reveal_with_fuel(Seq::<_>::filter, 1);
        }
        if found {
            out.push(d);
        }
        k = k + 1;
    }
    assert(pool_seq().subrange(0, 14) =~= pool_seq());
    proof {
        lemma_filter_of_ascending(pool_seq(), pred);
        assert forall|d: u64| out@.contains(d) <==> (is_supported(d) && configured@.contains(d)) by {
            if is_supported(d) && configured@.contains(d) {
                assert(pool_seq().contains(d));
                let i = choose|i: int| 0 <= i < pool_seq().len() && pool_seq()[i] == d;
                pool_seq().lemma_filter_contains(pred, i);
            }
            if out@.contains(d) {
                pool_seq().lemma_filter_contains_rev(pred, d);
                let i = choose|i: int| 0 <= i < out@.len() && out@[i] == d;
                pool_seq().lemma_filter_pred(pred, i);
                let k = choose|k: int| 0 <= k < pool_seq().len() && pool_seq()[k] == d;
                assert(is_supported(pool_seq()[k]));
            }
        }
    }
    out
}

proof fn lemma_filter_of_ascending(s: Seq<u64>, pred: spec_fn(u64) -> bool)
    requires
        strictly_ascending(s),
    ensures
        strictly_ascending(s.filter(pred)),
    decreases s.len(),
{
    reveal_with_fuel(Seq::<_>::filter, 1);
    if s.len() > 0 {
        let t = s.drop_last();
        assert(strictly_ascending(t));
        lemma_filter_of_ascending(t, pred);
        if pred(s.last()) {
            let f = t.filter(pred);
            assert forall|i: int| 0 <= i < f.len() implies f[i] < s.last() by {
                t.lemma_filter_contains_rev(pred, f[i]);
                let j = choose|j: int| 0 <= j < t.len() && t[j] == f[i];
                assert(s[j] == t[j]);
            }
        }
    }
}

// ---------------------------------------------------------------------
// Per-duration tables
// ---------------------------------------------------------------------

/// Tier provenance of a duration's indicator profile.
pub open spec fn provenance_spec(secs: u64) -> &'static str {
    if secs == 1 { "T0" }
    else if secs == 3 { "T0 (sub-5s family)" }
    else if secs == 5 { "T1" }
    else if secs == 15 { "T2" }
    else if secs == 30 { "T3" }
    else if secs == 60 { "T4" }
    else if secs == 180 { "T4·T5 blend" }
    else if secs == 300 { "T5" }
    else if secs == 900 { "T6" }
    else if secs == 1800 { "T7" }
    else if secs == 3600 { "T8" }
    else if secs == 14400 { "T9" }
    else if secs == 43200 { "T9·T10 lean-4h" }
    else if secs == 86400 { "T10" }
    else { "static default" }
}

/// Resolves the tier provenance label for a duration.
pub fn provenance_for(secs: u64) -> (label: &'static str)
    ensures
        label == provenance_spec(secs),
{
    if secs == 1 { "T0" }
    else if secs == 3 { "T0 (sub-5s family)" }
    else if secs == 5 { "T1" }
    else if secs == 15 { "T2" }
    else if secs == 30 { "T3" }
    else if secs == 60 { "T4" }
    else if secs == 180 { "T4·T5 blend" }
    else if secs == 300 { "T5" }
    else if secs == 900 { "T6" }
    else if secs == 1800 { "T7" }
    else if secs == 3600 { "T8" }
    else if secs == 14400 { "T9" }
    else if secs == 43200 { "T9·T10 lean-4h" }
    else if secs == 86400 { "T10" }
    else { "static default" }
}

/// Per-duration OI-delta window in seconds.
pub open spec fn oi_delta_window_spec(secs: u64) -> u64 {
    if secs == 1 { 60 }
    else if secs == 3 { 120 }
    else if secs == 5 { 300 }
    else if secs == 15 { 600 }
    else if secs == 30 { 900 }
    else if secs == 60 { 1800 }
    else { 3600 }
}

/// Per-duration OI-delta window: scalping durations anchor on minutes, one
/// hour and above keep the fixed one-hour window.
pub fn oi_delta_window_secs(secs: u64) -> (w: u64)
    ensures
        w == oi_delta_window_spec(secs),
{
    match secs {
        1 => 60,
        3 => 120,
        5 => 300,
        15 => 600,
        30 => 900,
        60 => 1800,
        _ => 3600,
    }
}

/// Per-duration cluster-refresh cadence in seconds.
pub open spec fn refresh_cadence_spec(secs: u64) -> u64 {
    if secs == 1 { 1 }
    else if secs == 3 || secs == 5 { 2 }
    else if secs == 15 || secs == 30 { 5 }
    else if secs == 60 { 10 }
    else if secs == 180 || secs == 300 { 15 }
    else if secs == 900 { 30 }
    else if secs == 1800 || secs == 3600 { 60 }
    else if secs == 14400 { 120 }
    else if secs == 43200 { 240 }
    else if secs == 86400 { 300 }
    else { 60 }
}

/// Decoupled per-duration cluster-refresh cadence.
pub fn refresh_cadence_secs(secs: u64) -> (c: u64)
    ensures
        c == refresh_cadence_spec(secs),
{
    match secs {
        1 => 1,
        3 => 2,
        5 => 2,
        15 => 5,
        30 => 5,
        60 => 10,
        180 => 15,
        300 => 15,
        900 => 30,
        1800 => 60,
        3600 => 60,
        14400 => 120,
        43200 => 240,
        86400 => 300,
        _ => 60,
    }
}

/// Both per-duration tables never decrease from a faster pool duration to a
/// slower one.
pub proof fn lemma_tables_monotone_over_pool()
    ensures
        forall|i: int, j: int|
            0 <= i <= j < 14 ==> refresh_cadence_spec(#[trigger] pool_seq()[i])
                <= refresh_cadence_spec(#[trigger] pool_seq()[j]),
        forall|i: int, j: int|
            0 <= i <= j < 14 ==> oi_delta_window_spec(#[trigger] pool_seq()[i])
                <= oi_delta_window_spec(#[trigger] pool_seq()[j]),
{
}

} // verus!
