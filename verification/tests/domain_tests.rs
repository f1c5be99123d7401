use platform_config::backtest::{
    entry_timeframe, latest_at_or_before, warm_chunk_plan, warmup_timeframe, RunPhase, WarmChunk,
};
use platform_config::market::{
    cascade_signal, classify_cascade, cross_tf_signal_count, overview_symbols, record_bucket_hit, retained_buckets, AlignState, CascadeState, LiquidationSide, LiquiditySignalKind,
    RealLiquidationBucket,
};
use platform_config::recovery::{plan_load, LoadStep, PrimaryFile, RestoreSource};
use platform_config::models::Direction;
use platform_config::merge::{deep_merge, merge_chain, JsonTree};
use platform_config::pipeline::CandlePipelineState;
use platform_config::replay::{
    burn_in_start, first_funding_boundary, hold_secs, lex_less, replay_order, settle_funding_until,
    trade_direction_label, ReplayEvent,
};
use platform_config::snapshot_export::{SnapshotExportRuntime, ALL_TABS};
use platform_config::strategy::{
    resolve_chain, ChainLink, ResolveError, StrategyConfig, StrategyProblem,
};

#[test]
fn pack_unpack_round_trip() {
    for idx in [-200i64, -50, -1, 0, 1, 50, 200, 12_345] {
        for side in [LiquidationSide::Long, LiquidationSide::Short] {
            let key = RealLiquidationBucket::pack_key(idx, side);
            let (out_idx, out_side) = RealLiquidationBucket::unpack_key(key);
            assert_eq!(idx, out_idx, "bucket_index round-trip failed for {idx}");
            assert_eq!(side, out_side, "side round-trip failed for {idx}");
        }
    }
}

#[test]
fn default_runtime_is_disabled_with_60s_interval() {
    let rt = SnapshotExportRuntime::default();
    assert!(!rt.enabled);
    assert_eq!(rt.interval_secs, 60);
    assert_eq!(rt.max_snapshots_retained, 1000);
    assert_eq!(rt.tabs.len(), ALL_TABS.len());
    assert!(rt.last_snapshot_at.is_none());
    assert_eq!(rt.total_snapshots_written, 0);
    assert!(rt.last_error.is_none());
    assert_eq!(rt.last_instance_count, 0);
}

#[test]
fn v10_validation_rejects_bad_enums() {
    let mut s = StrategyConfig::default();
    s.tae.risk.setup_gone_policy = "wild".into();
    s.tae.execution.entry_mode = "limit_at_moon".into();
    s.tae.execution.instant_fill_policy = "maybe".into();
    s.tae.lifecycle.replace_policy = "keep_both".into();
    s.tae.risk.sl_mode = "vibes".into();
    s.tae.execution.tp_placement = "anywhere".into();
    let problems: Vec<String> = s.validate().iter().map(|p| p.message()).collect();
    assert!(problems.len() >= 6);
    assert!(problems.iter().any(|p| p.contains("setup_gone_policy")));
    assert!(problems.iter().any(|p| p.contains("entry_mode")));
    assert!(problems.iter().any(|p| p.contains("instant_fill_policy")));
    assert!(problems.iter().any(|p| p.contains("replace_policy")));
    assert!(problems.iter().any(|p| p.contains("sl_mode")));
    assert!(problems.iter().any(|p| p.contains("tp_placement")));
}

#[test]
fn v10_validation_rejects_bad_ranges() {
    let mut s = StrategyConfig::default();
    // tp_refresh_min_rr_delta = -0.1, sl_padding_atr = -1.0, atr_anchor_mult = 0.0,
    // chase_max_atr = 0.0, chase_score_floor = 250.0, min_reprice_delta_atr = -0.5:
    // each fails its range check.
    s.tae.risk.tp_refresh_min_rr_delta_valid = false;
    s.tae.risk.sl_padding_atr_valid = false;
    s.tae.risk.atr_anchor_mult_valid = false;
    s.tae.execution.chase_max_atr_valid = false;
    s.tae.execution.chase_score_floor_valid = false;
    s.tae.lifecycle.min_reprice_delta_atr_valid = false;
    let problems: Vec<String> = s.validate().iter().map(|p| p.message()).collect();
    assert!(problems.iter().any(|p| p.contains("tp_refresh_min_rr_delta")));
    assert!(problems.iter().any(|p| p.contains("sl_padding_atr")));
    assert!(problems.iter().any(|p| p.contains("atr_anchor_mult")));
    assert!(problems.iter().any(|p| p.contains("chase_max_atr")));
    assert!(problems.iter().any(|p| p.contains("chase_score_floor")));
    assert!(problems.iter().any(|p| p.contains("min_reprice_delta_atr")));
}

#[test]
fn v10_dial_defaults() {
    let s = StrategyConfig::default();
    assert_eq!(s.tae.execution.entry_mode, "zone_midpoint");
    assert_eq!(s.tae.execution.instant_fill_policy, "take_better");
    assert!(s.tae.execution.chase_max_atr_valid);
    assert!(s.tae.execution.chase_score_floor_valid);
    assert_eq!(s.tae.execution.tp_placement, "zone_midpoint");
    assert_eq!(s.tae.lifecycle.replace_policy, "cancel_and_adopt");
    assert!(s.tae.lifecycle.min_reprice_delta_atr_valid);
    assert!(s.tae.risk.tp_refresh_min_rr_delta_valid);
    assert_eq!(s.tae.risk.sl_mode, "invalidation");
    assert!(s.tae.risk.sl_padding_atr_valid);
    assert!(s.tae.risk.atr_anchor_mult_valid);
}

#[test]
fn disable_friendly_defaults() {
    let s = StrategyConfig::default();
    assert!(s.tae.lifecycle.pending_entry_expiry_bars.is_none());
    assert!(!s.pme.exposure.enforce.single_pair);
    assert!(!s.pme.enforce_systemic_veto);
    assert_eq!(s.tae.risk.setup_gone_policy, "balanced");
    assert!(s.tae.risk.min_sl_atr_valid);
    assert!(s.tae.risk.confidence_drop_pct_valid);
}

#[test]
fn strategy_layer_defaults() {
    let s = StrategyConfig::default();
    assert!(s.l1_5.enabled && s.l1_5.liquidation_feed && s.l1_5.cluster_estimation && s.l1_5.signals);
    assert_eq!(s.l1_5.mark_price_poll_ms, 60_000);
    assert_eq!(s.l1_5.event_retention_days, 90);
    assert_eq!(s.l1_5.bucket_retention_days, 7);
    assert_eq!(s.l1_5.cluster_refresh_secs, 0);
    assert_eq!(s.l1_5.cascade_sustained_events, 3);
    assert_eq!(s.l1_5.api_failover.max_retries_per_call, 5);
    assert_eq!(s.l2.confluence.min_tfs, 2);
    assert!(!s.l2.trend_agreement_weighted);
    assert!(s.tae.intake.execution_veto.is_empty());
    assert!(s.tae.intake.trading_hours_utc.is_none());
    assert_eq!(s.tae.intake.direction_policy, "both");
}

#[test]
fn default_strategy_validates_clean() {
    let s = StrategyConfig::default();
    assert_eq!(s.schema_version, 1);
    assert_eq!(s.name, "default");
    assert!(s.validate().is_empty());
}

#[test]
fn default_setup_preconditions_name_their_regimes() {
    let s = StrategyConfig::default();
    let pc = &s.l4.preconditions;
    assert_eq!(pc.mean_reversion.regimes, vec!["Range".to_string(), "Contraction".to_string()]);
    assert_eq!(pc.scalp.regimes, vec!["TrendingBull".to_string(), "TrendingBear".to_string()]);
    assert_eq!(
        pc.liquidity_squeeze.regimes,
        vec!["Expansion".to_string(), "Transition".to_string()]
    );
    assert_eq!(s.l4.setups.priority[0], "LiquiditySqueeze");
}

#[test]
fn strategy_problems_come_in_check_order() {
    let mut s = StrategyConfig::default();
    s.schema_version = 2;
    s.name = "   ".to_string();
    s.pae.verdict.alpha_valid = false;
    s.tae.risk.sl_mode = "invalidation_padded".to_string();
    let problems = s.validate();
    assert_eq!(
        problems,
        vec![StrategyProblem::SchemaVersion(2), StrategyProblem::EmptyName, StrategyProblem::PaeAlpha]
    );
    assert_eq!(problems[0].message(), "schema_version 2 unsupported (expected 1)");
    assert_eq!(problems[2].message(), "pae.verdict.alpha must be in (0, 1]");
}

fn named(name: &str, base: Option<&str>) -> StrategyConfig {
    let mut s = StrategyConfig::default();
    s.name = name.to_string();
    s.base = base.map(|b| b.to_string());
    s
}

#[test]
fn strategy_chain_walks_every_base() {
    let strategies = vec![named("leaf", Some("mid")), named("mid", Some("root")), named("root", None)];
    assert_eq!(
        resolve_chain(&strategies, "leaf"),
        Ok(vec![ChainLink::Declared(0), ChainLink::Declared(1), ChainLink::Declared(2)])
    );
    let strategies = vec![named("custom", Some("default"))];
    assert_eq!(
        resolve_chain(&strategies, "custom"),
        Ok(vec![ChainLink::Declared(0), ChainLink::BuiltinDefault])
    );
}

#[test]
fn strategy_chain_reports_failures() {
    let strategies = vec![named("a", Some("b")), named("b", Some("a"))];
    assert_eq!(resolve_chain(&strategies, "a"), Err(ResolveError::Cycle("a".to_string())));
    let strategies = vec![named("self", Some("self"))];
    assert_eq!(resolve_chain(&strategies, "self"), Err(ResolveError::SelfInherit("self".to_string())));
    let strategies = vec![named("x", Some("ghost"))];
    assert_eq!(
        resolve_chain(&strategies, "x"),
        Err(ResolveError::BaseNotFound { base: "ghost".to_string(), child: "x".to_string() })
    );
    assert_eq!(resolve_chain(&strategies, "nope"), Err(ResolveError::NotFound("nope".to_string())));
}

#[test]
fn pipeline_state_aggregates_to_most_severe() {
    type S = CandlePipelineState;
    assert_eq!(S::most_severe(&[]), S::Live);
    assert_eq!(S::most_severe(&[S::Live, S::Loading, S::Live]), S::Loading);
    assert_eq!(S::most_severe(&[S::Initializing, S::Loading]), S::Initializing);
    assert_eq!(S::most_severe(&[S::Stale, S::Failed, S::Loading]), S::Failed);
    assert_eq!(S::Failed.severity(), 3);
}

#[test]
fn run_phase_and_state_names() {
    assert_eq!(RunPhase::Replaying.as_str(), "replaying");
    assert_eq!(AlignState::NoData.as_str(), "NO_DATA");
    assert_eq!(LiquiditySignalKind::CascadeSustained.as_str(), "CASCADE_SUSTAINED");
}

#[test]
fn warm_chunks_cover_the_series_once() {
    assert!(warm_chunk_plan(0).is_empty());
    assert_eq!(warm_chunk_plan(120), vec![WarmChunk { start: 0, end: 120, skip: 0 }]);
    let plan = warm_chunk_plan(12_000);
    assert_eq!(
        plan,
        vec![
            WarmChunk { start: 0, end: 5000, skip: 0 },
            WarmChunk { start: 4700, end: 9700, skip: 300 },
            WarmChunk { start: 9400, end: 12_000, skip: 300 },
        ]
    );
}

#[test]
fn latest_bar_lookup() {
    let ts = vec![60u64, 120, 180, 240];
    assert_eq!(latest_at_or_before(&ts, 30), None);
    assert_eq!(latest_at_or_before(&ts, 60), Some(0));
    assert_eq!(latest_at_or_before(&ts, 200), Some(2));
    assert_eq!(latest_at_or_before(&ts, 10_000), Some(3));
    assert_eq!(latest_at_or_before(&Vec::new(), 10), None);
}

#[test]
fn ladder_timeframes() {
    assert_eq!(entry_timeframe(&vec![300, 60, 900]), 60);
    assert_eq!(entry_timeframe(&Vec::new()), 60);
    assert_eq!(warmup_timeframe(&vec![300, 60, 900]), 900);
    assert_eq!(warmup_timeframe(&Vec::new()), 900);
}

#[test]
fn direction_sign_is_a_unit() {
    assert_eq!(Direction::Long.sign(), rust_decimal::Decimal::ONE);
    assert_eq!(Direction::Short.sign(), rust_decimal::Decimal::NEGATIVE_ONE);
}

fn obj(entries: Vec<(&str, JsonTree)>) -> JsonTree {
    JsonTree::Object(entries.into_iter().map(|(k, v)| (k.to_string(), v)).collect())
}

fn leaf(text: &str) -> JsonTree {
    JsonTree::Leaf(text.to_string())
}

fn get<'a>(t: &'a JsonTree, key: &str) -> Option<&'a JsonTree> {
    match t {
        JsonTree::Object(es) => es.iter().find(|(k, _)| k == key).map(|(_, v)| v),
        JsonTree::Leaf(_) => None,
    }
}

fn leaf_text(t: Option<&JsonTree>) -> Option<String> {
    match t {
        Some(JsonTree::Leaf(s)) => Some(s.clone()),
        _ => None,
    }
}

#[test]
fn base_inheritance_patches_merge_trees() {
    let base = obj(vec![
        ("name", leaf("\"base\"")),
        ("l6", obj(vec![("stop", obj(vec![("base_pct", leaf("3.0"))]))])),
        ("l4", obj(vec![("setups", obj(vec![("enabled", leaf("[\"TrendContinuation\"]"))]))])),
        ("l5", obj(vec![("bands", leaf("[80.0,60.0,40.0,20.0]"))])),
    ]);
    let child = obj(vec![
        ("name", leaf("\"child\"")),
        ("l6", obj(vec![("stop", obj(vec![("final_clamp", leaf("[1.0,10.0]"))]))])),
    ]);
    let merged = deep_merge(base, child);
    assert_eq!(leaf_text(get(&merged, "name")), Some("\"child\"".to_string()));
    let stop = get(get(&merged, "l6").unwrap(), "stop").unwrap();
    assert_eq!(leaf_text(get(stop, "base_pct")), Some("3.0".to_string()));
    assert_eq!(leaf_text(get(stop, "final_clamp")), Some("[1.0,10.0]".to_string()));
    let setups = get(get(&merged, "l4").unwrap(), "setups").unwrap();
    assert_eq!(leaf_text(get(setups, "enabled")), Some("[\"TrendContinuation\"]".to_string()));
    // Untouched sections keep the base's values.
    let l5 = get(&merged, "l5").unwrap();
    assert_eq!(leaf_text(get(l5, "bands")), Some("[80.0,60.0,40.0,20.0]".to_string()));
}

#[test]
fn a_leaf_child_replaces_an_object_base() {
    let base = obj(vec![("a", obj(vec![("b", leaf("1"))]))]);
    let child = obj(vec![("a", leaf("null"))]);
    let merged = deep_merge(base, child);
    assert_eq!(leaf_text(get(&merged, "a")), Some("null".to_string()));
}

#[test]
fn a_chain_merges_from_the_leaf_up() {
    let root = obj(vec![("a", obj(vec![("x", leaf("1")), ("y", leaf("2"))])), ("r", leaf("true"))]);
    let mid = obj(vec![("a", leaf("5")), ("m", leaf("\"mid\""))]);
    let leaf_doc = obj(vec![("a", obj(vec![("z", leaf("3"))]))]);
    let merged = merge_chain(vec![leaf_doc, mid, root]);
    let a = get(&merged, "a").unwrap();
    assert_eq!(leaf_text(get(a, "x")), Some("1".to_string()));
    assert_eq!(leaf_text(get(a, "y")), Some("2".to_string()));
    assert_eq!(leaf_text(get(a, "z")), Some("3".to_string()));
    assert_eq!(leaf_text(get(&merged, "m")), Some("\"mid\"".to_string()));
    assert_eq!(leaf_text(get(&merged, "r")), Some("true".to_string()));
    let single = merge_chain(vec![obj(vec![("k", leaf("7"))])]);
    assert_eq!(leaf_text(get(&single, "k")), Some("7".to_string()));
}

#[test]
fn burn_in_reaches_back_by_the_slowest_duration() {
    assert_eq!(burn_in_start(1_000_000, 300, &vec![60, 900, 300]), 730_000);
    assert_eq!(burn_in_start(1_000_000, 300, &vec![]), 730_000);
    assert_eq!(burn_in_start(1_000_000, 0, &vec![86_400]), 1_000_000);
    assert_eq!(burn_in_start(i64::MIN + 10, 1, &vec![60]), i64::MIN);
}

#[test]
fn funding_settles_on_the_eight_hour_grid() {
    assert_eq!(first_funding_boundary(0), 28_800);
    assert_eq!(first_funding_boundary(28_799), 28_800);
    assert_eq!(first_funding_boundary(28_800), 57_600);
    assert_eq!(first_funding_boundary(-1), 0);
    assert_eq!(first_funding_boundary(i64::MAX), i64::MAX);
    assert_eq!(settle_funding_until(28_800, 100_000), (3, 115_200));
    assert_eq!(settle_funding_until(28_800, 28_799), (0, 28_800));
    assert_eq!(settle_funding_until(28_800, 28_800), (1, 57_600));
}

#[test]
fn replay_order_is_time_then_symbol_and_stable() {
    let ev = |ts: u64, s: &str| ReplayEvent { ts, symbol: s.to_string() };
    let events = vec![
        ev(120, "ETH"),
        ev(60, "SOL"),
        ev(60, "BTC"),
        ev(120, "BTC"),
        ev(30, "BTC"),
        ev(60, "BTC"),
        ev(999, "BTC"),
    ];
    assert_eq!(replay_order(&events, 60, 200), vec![2, 5, 1, 3, 0]);
    assert_eq!(replay_order(&events, 0, 10), Vec::<usize>::new());
    assert!(lex_less("BTC", "ETH"));
    assert!(lex_less("BT", "BTC"));
    assert!(!lex_less("BTC", "BTC"));
    assert!(!lex_less("eth", "ETH"));
}

#[test]
fn cascade_state_follows_significant_event_counts() {
    assert_eq!(classify_cascade(3, 3, false, false), CascadeState::Sustained);
    assert_eq!(classify_cascade(2, 3, true, true), CascadeState::Detected);
    assert_eq!(classify_cascade(1, 0, false, false), CascadeState::Sustained);
    assert_eq!(classify_cascade(0, 3, true, true), CascadeState::Exhausted);
    assert_eq!(classify_cascade(0, 3, true, false), CascadeState::NoCascade);
    assert_eq!(classify_cascade(0, 3, false, true), CascadeState::NoCascade);
}

#[test]
fn stale_buckets_are_evicted_and_the_rest_ordered_by_key() {
    let b = |idx: i64, side: LiquidationSide, ts: u64| {
        let key = RealLiquidationBucket::pack_key(idx, side);
        (key, RealLiquidationBucket { bucket_index: idx, side, event_count: 1, last_updated_ms: ts })
    };
    let table = vec![
        b(5, LiquidationSide::Long, 10_000),
        b(-3, LiquidationSide::Short, 1_000),
        b(2, LiquidationSide::Short, 9_500),
        b(-7, LiquidationSide::Long, 9_000),
    ];
    let kept = retained_buckets(&table, 10_000, 1_000);
    let keys: Vec<i64> = kept.iter().map(|(k, _)| *k).collect();
    assert_eq!(keys, vec![table[3].0, table[2].0, table[0].0]);
    assert_eq!(retained_buckets(&table, 500, 1_000).len(), 4);
    assert!(retained_buckets(&table, 100_000, 1_000).is_empty());
}

#[test]
fn recovery_prefers_backup_then_templates() {
    assert_eq!(plan_load(PrimaryFile::Parsed, false, false, false), LoadStep::UsePrimary);
    assert_eq!(
        plan_load(PrimaryFile::Unparseable { empty: false }, true, true, true),
        LoadStep::Recover { quarantine: true, source: Some(RestoreSource::Backup) }
    );
    assert_eq!(
        plan_load(PrimaryFile::Unparseable { empty: true }, false, true, true),
        LoadStep::Recover { quarantine: false, source: Some(RestoreSource::TemplateBesideConfig) }
    );
    assert_eq!(
        plan_load(PrimaryFile::Unreadable, false, false, true),
        LoadStep::Recover { quarantine: false, source: Some(RestoreSource::TemplateInWorkingDir) }
    );
    assert_eq!(
        plan_load(PrimaryFile::Unreadable, false, false, false),
        LoadStep::Recover { quarantine: false, source: None }
    );
}

#[test]
fn bucket_hits_count_and_the_oldest_bucket_is_evicted() {
    let mut table = Vec::new();
    let k_long = RealLiquidationBucket::pack_key(0, LiquidationSide::Long);
    let k_short = RealLiquidationBucket::pack_key(1, LiquidationSide::Short);
    let k_far = RealLiquidationBucket::pack_key(-4, LiquidationSide::Long);
    assert_eq!(record_bucket_hit(&mut table, k_long, 0, LiquidationSide::Long, 1_000, 2), None);
    assert_eq!(record_bucket_hit(&mut table, k_long, 0, LiquidationSide::Long, 900, 2), None);
    assert_eq!(table.len(), 1);
    assert_eq!(table[0].1.event_count, 2);
    assert_eq!(table[0].1.last_updated_ms, 1_000);
    assert_eq!(record_bucket_hit(&mut table, k_short, 1, LiquidationSide::Short, 2_000, 2), None);
    let evicted = record_bucket_hit(&mut table, k_far, -4, LiquidationSide::Long, 3_000, 2);
    assert_eq!(evicted.map(|(k, _)| k), Some(k_long));
    let keys: Vec<i64> = table.iter().map(|(k, _)| *k).collect();
    assert_eq!(keys, vec![k_short, k_far]);
}

#[test]
fn trade_records_label_direction_and_hold_time() {
    assert_eq!(trade_direction_label(Some(Direction::Long)), "LONG");
    assert_eq!(trade_direction_label(Some(Direction::Short)), "SHORT");
    assert_eq!(trade_direction_label(None), "UNKNOWN");
    assert_eq!(hold_secs(1_000, 4_600), 3_600);
    assert_eq!(hold_secs(0, 4_600), 0);
    assert_eq!(hold_secs(-5, 4_600), 0);
}

#[test]
fn cascade_signals_fire_on_transitions() {
    type C = CascadeState;
    type K = LiquiditySignalKind;
    assert_eq!(cascade_signal(C::Detected, None, 1, 3), Some(K::CascadeDetected));
    assert_eq!(cascade_signal(C::Detected, Some(C::NoCascade), 1, 3), Some(K::CascadeDetected));
    assert_eq!(cascade_signal(C::Detected, Some(C::Detected), 1, 3), None);
    assert_eq!(cascade_signal(C::Sustained, Some(C::Sustained), 0, 3), Some(K::CascadeSustained));
    assert_eq!(cascade_signal(C::Sustained, Some(C::Detected), 2, 3), None);
    assert_eq!(cascade_signal(C::Sustained, Some(C::Detected), 3, 3), Some(K::CascadeSustained));
    assert_eq!(cascade_signal(C::Sustained, None, 1, 0), Some(K::CascadeSustained));
    assert_eq!(cascade_signal(C::Exhausted, Some(C::Sustained), 0, 3), Some(K::CascadeExhausted));
    assert_eq!(cascade_signal(C::Exhausted, Some(C::Exhausted), 0, 3), None);
    assert_eq!(cascade_signal(C::NoCascade, None, 9, 3), None);
}

#[test]
fn overview_symbols_are_active_or_advised_sorted_once() {
    let instances = vec![
        ("ETH-USDT".to_string(), true),
        ("SOL-USDT".to_string(), false),
        ("BTC-USDT".to_string(), true),
        ("ETH-USDT".to_string(), true),
    ];
    let advisories = vec!["ADA-USDT".to_string(), "BTC-USDT".to_string()];
    assert_eq!(
        overview_symbols(&instances, &advisories),
        vec!["ADA-USDT".to_string(), "BTC-USDT".to_string(), "ETH-USDT".to_string()]
    );
    assert!(overview_symbols(&vec![], &vec![]).is_empty());
}

fn sig(ind: &str, label: &str) -> (String, String, String) {
    (ind.to_string(), label.to_string(), "Threshold".to_string())
}

#[test]
fn cross_tf_count_counts_signals_shared_across_two_or_more_tfs() {
    let shared = vec![sig("rsi", "RSI_OVERBOUGHT")];
    let solo = vec![sig("macd", "MACD_CROSS_UP")];
    assert_eq!(cross_tf_signal_count(&vec![shared.clone(), shared.clone(), solo.clone()], 2), 1);
    assert_eq!(cross_tf_signal_count(&vec![shared.clone(), shared.clone(), shared], 3), 1);
    assert_eq!(cross_tf_signal_count(&vec![solo], 1), 0);
}

#[test]
fn cross_tf_count_is_not_a_fraction_of_total_signals() {
    let heavy: Vec<_> = (0..16).map(|i| sig(&format!("ind_{i}"), &format!("LABEL_{i}"))).collect();
    let sparse = vec![sig("rsi", "UNIQUE")];
    assert_eq!(cross_tf_signal_count(&vec![heavy, sparse], 2), 0);
}
