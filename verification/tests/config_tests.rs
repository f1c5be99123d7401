use platform_config::durations::{
    duration_from_label, duration_label, duration_label_upper, heal_ladder, is_supported_duration,
    oi_delta_window_secs, provenance_for, refresh_cadence_secs, slot_label_for,
    DEFAULT_TIMEFRAMES, SUPPORTED_DURATIONS,
};
use platform_config::indicators::{
    for_duration, overlay, validate_indicators_config, IndicatorCheck, IndicatorPeriod,
    IndicatorsConfig,
};
use platform_config::legacy::{
    assert_no_legacy_files, legacy_file_verdict, legacy_key_verdict, reject_legacy_timeframe_keys, TomlValue,
};
use platform_config::models::{
    AutomationConfig, BitgetConfig, HyperliquidConfig, LeverageConfig, OperationalMode,
};
use platform_config::platform::{validate_platform, PlatformConfig};
use platform_config::sections::{FibonacciConfig, PivotsConfig, QualityConfig};
use platform_config::strategy::{ResolveError, StrategyConfig};
use platform_config::workspace::{
    validate_workspace, BacktestExchange, ConfigError, ExecutionMode, InstanceEntry,
    InstanceStatus, NumericGuard, TimeframeConfig, WorkspaceConfig,
};

fn instance(symbol: &str, id: &str) -> InstanceEntry {
    InstanceEntry {
        id: id.to_string(),
        symbol: symbol.to_string(),
        quote: "USDT".to_string(),
        status: InstanceStatus::Running,
        timeframes: Vec::new(),
        automation: AutomationConfig::default(),
        operational_mode: OperationalMode::Advisory,
        mode: ExecutionMode::default(),
        strategy: None,
        activation: None,
    }
}

fn reject_raw(raw: &str) -> Result<(), ConfigError> {
    reject_legacy_timeframe_keys(raw)
}

#[test]
fn assert_no_legacy_files_returns_ok_when_clean() {
    assert!(assert_no_legacy_files().is_ok());
}

#[test]
fn test_default_leverage() {
    let cfg = LeverageConfig::default();
    assert_eq!(cfg.cross_leverage, 20);
}

#[test]
fn test_default_pivots_config() {
    let cfg = PivotsConfig::default();
    assert_eq!(cfg.strength_n, 10);
    assert_eq!(cfg.scan_range_candles, 120);
}

#[test]
fn cadence_table_is_per_duration_and_monotone() {
    assert_eq!(refresh_cadence_secs(1), 1);
    assert_eq!(refresh_cadence_secs(5), 2);
    assert_eq!(refresh_cadence_secs(60), 10);
    assert_eq!(refresh_cadence_secs(86400), 300);
    let mut prev = 0.0;
    for secs in SUPPORTED_DURATIONS {
        let c = refresh_cadence_secs(secs) as f64;
        assert!(c >= prev, "cadence must be monotone at {secs}s");
        prev = c;
    }
}

#[test]
fn oi_window_table_is_per_duration() {
    assert_eq!(oi_delta_window_secs(1), 60);
    assert_eq!(oi_delta_window_secs(5), 300);
    assert_eq!(oi_delta_window_secs(60), 1800);
    for secs in [3600u64, 14400, 43200, 86400] {
        assert_eq!(oi_delta_window_secs(secs), 3600);
    }
}

#[test]
fn platform_server_non_loopback_rejected() {
    let mut platform = PlatformConfig::default();
    platform.server.bind = "0.0.0.0".to_string();
    assert!(validate_platform(&platform).is_err());
    platform.server.bind = "192.168.1.10".to_string();
    assert!(validate_platform(&platform).is_err());
}

#[test]
fn platform_server_port_zero_rejected() {
    let mut platform = PlatformConfig::default();
    platform.server.port = 0;
    assert!(validate_platform(&platform).is_err());
}

#[test]
fn indicators_default_is_not_zero() {
    let cfg = IndicatorsConfig::default();
    assert_eq!(cfg.ema_fast, 10);
    assert_eq!(cfg.ema_medium, 50);
    assert_eq!(cfg.ema_slow, 100);
    assert_eq!(cfg.ema_long, 200);
    assert_eq!(cfg.rsi_period, 14);
    assert_eq!(cfg.macd_fast, 12);
    assert_eq!(cfg.macd_slow, 26);
    assert_eq!(cfg.macd_signal, 9);
    assert_eq!(cfg.adx_period, 14);
    assert_eq!(cfg.atr_period, 14);
    assert_eq!(cfg.squeeze_period, 20);
}

#[test]
fn tf_ladder_defaults_match_supported_pool() {
    let mut ws = WorkspaceConfig::default();
    ws.slow_timeframe.duration_seconds = 300;
    ws.macro_timeframe.duration_seconds = 900;
    assert_eq!(ws.tf_ladder_defaults(), SUPPORTED_DURATIONS.to_vec());
    assert_eq!(
        SUPPORTED_DURATIONS,
        [1, 3, 5, 15, 30, 60, 180, 300, 900, 1800, 3600, 14400, 43200, 86400]
    );
}

#[test]
fn active_timeframes_default_is_fastest_eight() {
    let mut ws = WorkspaceConfig::default();
    assert_eq!(ws.timeframes, DEFAULT_TIMEFRAMES.to_vec());
    assert_eq!(ws.active_timeframes_for(), vec![1, 3, 5, 15, 30, 60, 180, 300]);
    ws.timeframes = vec![3600];
    assert_eq!(ws.active_timeframes_for(), vec![3600]);
    ws.timeframes = vec![86400, 1, 300];
    assert_eq!(ws.active_timeframes_for(), vec![1, 300, 86400]);
    ws.timeframes = vec![60, 240];
    assert_eq!(ws.active_timeframes_for(), vec![60]);
    ws.timeframes = vec![900, 900, 30];
    assert_eq!(ws.active_timeframes_for(), vec![30, 900]);
}

#[test]
fn timeframes_validation_rejects_bad_sets() {
    let mut ws = WorkspaceConfig::default();
    ws.timeframes = Vec::new();
    assert!(validate_workspace(&ws).is_err());
    ws.timeframes = SUPPORTED_DURATIONS.to_vec();
    assert!(validate_workspace(&ws).is_ok());
    ws.timeframes = vec![60, 240];
    assert!(validate_workspace(&ws).is_err());
    ws.timeframes = vec![60, 60];
    assert!(validate_workspace(&ws).is_err());
    ws.timeframes = vec![60];
    assert!(validate_workspace(&ws).is_ok());
    ws.timeframes = vec![1, 3, 5, 15, 30, 60, 180, 300, 900, 1800, 3600, 14400, 43200, 86400];
    assert!(validate_workspace(&ws).is_ok());
}

#[test]
fn default_workspace_has_zero_instances() {
    let ws = WorkspaceConfig::default();
    assert_eq!(ws.id, "main");
    assert_eq!(ws.instances.len(), 0);
    assert_eq!(ws.default_currency, "USDC");
}

#[test]
fn declared_symbols_extracts_instance_symbols() {
    let mut ws = WorkspaceConfig::default();
    ws.instances.push(instance("BTC-USDT", "btc"));
    ws.instances.push(instance("ETH-USDT", "eth"));
    let syms = ws.declared_symbols();
    assert_eq!(syms, vec!["BTC-USDT", "ETH-USDT"]);
}

#[test]
fn legacy_timeframe_keys_rejected_at_load() {
    let cases = [
        r#"
[workspace]
id = "main"
active_slots = ["micro1", "fast1"]
"#,
        r#"
[workspace]
id = "main"
active_timeframes = 5
"#,
        r#"
[workspace]
id = "main"

[[workspace.instances]]
id = "btc"
symbol = "BTC-USDT"

[workspace.instances.micro_term]
candles = { duration_seconds = 60 }
"#,
        r#"
[workspace]
id = "main"

[[workspace.instances]]
id = "btc"
symbol = "BTC-USDT"
custom_pipelines = { 5 = { candles = { duration_seconds = 120 } } }
"#,
    ];
    for raw in cases {
        let err = reject_raw(raw).expect_err("legacy key must be rejected");
        assert!(matches!(err, ConfigError::LegacyTimeframeKey { .. }));
    }
    assert!(reject_raw("[workspace]\nid = \"main\"\ntimeframes = [1, 60]\n").is_ok());
}

#[test]
fn zero_valued_periods_rejected_at_load() {
    let mut bad_rsi = instance("BTC-USDT", "btc");
    let mut indicators = IndicatorsConfig::default();
    indicators.rsi_period = 0;
    let mut tf = TimeframeConfig::new(60, IndicatorsConfig::default());
    tf.indicators = indicators;
    bad_rsi.timeframes.push((60, tf));
    let mut ws = WorkspaceConfig::default();
    ws.instances = vec![bad_rsi];
    assert!(matches!(validate_workspace(&ws), Err(ConfigError::InvalidNumeric { .. })));

    let mut mismatched = instance("BTC-USDT", "btc");
    mismatched.timeframes.push((60, TimeframeConfig::new(180, IndicatorsConfig::default())));
    let mut ws = WorkspaceConfig::default();
    ws.instances = vec![mismatched];
    assert!(matches!(validate_workspace(&ws), Err(ConfigError::InvalidNumeric { .. })));

    let mut ws_bad_rsi = WorkspaceConfig::default();
    ws_bad_rsi.indicators.rsi_period = 0;
    assert!(matches!(validate_workspace(&ws_bad_rsi), Err(ConfigError::InvalidNumeric { .. })));

    let mut quality = QualityConfig::default();
    quality.median_window_size = 0;
    let mut platform = PlatformConfig::default();
    platform.quality = Some(quality);
    assert!(matches!(validate_platform(&platform), Err(ConfigError::InvalidNumeric { .. })));
}

#[test]
fn backtest_config_defaults_and_bounds() {
    let mut ws = WorkspaceConfig::default();
    assert_eq!(ws.backtest.archive_depth_days, 180);
    assert_eq!(ws.backtest.hyperliquid.page_cap, 1000);
    assert_eq!(ws.backtest.bitget.page_cap, 200);
    assert!(validate_workspace(&ws).is_ok());

    for bad in [0u32, 366] {
        ws.backtest.archive_depth_days = bad;
        assert!(
            matches!(validate_workspace(&ws), Err(ConfigError::InvalidNumeric { .. })),
            "depth {bad} must be rejected"
        );
    }
    for ok in [1u32, 365] {
        ws.backtest.archive_depth_days = ok;
        assert!(validate_workspace(&ws).is_ok(), "depth {ok} must pass");
    }

    ws.backtest.warmup_bars = 29;
    assert!(matches!(validate_workspace(&ws), Err(ConfigError::InvalidNumeric { .. })));
    ws.backtest.warmup_bars = 30;
    ws.backtest.hyperliquid.page_cap = 0;
    assert!(matches!(validate_workspace(&ws), Err(ConfigError::InvalidNumeric { .. })));
    ws.backtest.hyperliquid.page_cap = 1000;
    ws.backtest.bitget.max_pages_per_run = 0;
    assert!(matches!(validate_workspace(&ws), Err(ConfigError::InvalidNumeric { .. })));
}

// ---------------------------------------------------------------------
// Further scenarios
// ---------------------------------------------------------------------

#[test]
fn workspace_guard_reports_the_first_failure() {
    let mut ws = WorkspaceConfig::default();
    ws.backtest.warmup_bars = 10;
    ws.backtest.bitget.page_cap = 0;
    assert_eq!(
        validate_workspace(&ws),
        Err(ConfigError::InvalidNumeric { guard: NumericGuard::WarmupBars })
    );
    ws.backtest.warmup_bars = 300;
    assert_eq!(
        validate_workspace(&ws),
        Err(ConfigError::InvalidNumeric { guard: NumericGuard::PageCap(BacktestExchange::Bitget) })
    );
}

#[test]
fn workspace_guard_names_duplicate_and_unsupported_durations() {
    let mut ws = WorkspaceConfig::default();
    ws.timeframes = vec![60, 240];
    assert_eq!(
        validate_workspace(&ws),
        Err(ConfigError::InvalidNumeric { guard: NumericGuard::TimeframeNotSupported(240) })
    );
    ws.timeframes = vec![60, 300, 60];
    assert_eq!(
        validate_workspace(&ws),
        Err(ConfigError::InvalidNumeric { guard: NumericGuard::TimeframeDuplicate(60) })
    );
    ws.timeframes = Vec::new();
    assert_eq!(
        validate_workspace(&ws),
        Err(ConfigError::InvalidNumeric { guard: NumericGuard::TimeframeCount(0) })
    );
}

#[test]
fn workspace_guard_names_instance_override_problems() {
    let mut inst = instance("ETH-USDT", "eth");
    inst.timeframes.push((60, TimeframeConfig::new(180, IndicatorsConfig::default())));
    let mut ws = WorkspaceConfig::default();
    ws.instances = vec![inst];
    assert_eq!(
        validate_workspace(&ws),
        Err(ConfigError::InvalidNumeric {
            guard: NumericGuard::InstanceTimeframeMismatch {
                symbol: "ETH-USDT".to_string(),
                secs: 60,
                declared: 180
            }
        })
    );
    let mut inst = instance("ETH-USDT", "eth");
    let mut ind = IndicatorsConfig::default();
    ind.keltner_atr_period = 0;
    ind.volume_profile_bins = 0;
    inst.timeframes.push((300, TimeframeConfig::new(300, ind)));
    ws.instances = vec![inst];
    assert_eq!(
        validate_workspace(&ws),
        Err(ConfigError::InvalidNumeric {
            guard: NumericGuard::InstanceIndicators {
                symbol: "ETH-USDT".to_string(),
                secs: 300,
                check: IndicatorCheck::ZeroPeriod(IndicatorPeriod::KeltnerAtrPeriod)
            }
        })
    );
}

#[test]
fn ladder_roles_must_be_pool_labels_when_enabled() {
    let mut ws = WorkspaceConfig::default();
    ws.strategies[0].ladder_roles.entry_tf = "2m".to_string();
    assert!(validate_workspace(&ws).is_ok());
    ws.strategies[0].ladder_roles.enabled = true;
    assert!(matches!(
        validate_workspace(&ws),
        Err(ConfigError::InvalidNumeric { guard: NumericGuard::LadderRoleLabel { .. } })
    ));
    ws.strategies[0].ladder_roles.entry_tf = "1M".to_string();
    assert!(validate_workspace(&ws).is_ok());
}

#[test]
fn float_verdicts_are_guarded_in_order() {
    let mut ws = WorkspaceConfig::default();
    ws.heatmap.retention_secs = 0;
    ws.liquidity.maintenance_margin_rate_valid = false;
    assert_eq!(
        validate_workspace(&ws),
        Err(ConfigError::InvalidNumeric { guard: NumericGuard::MaintenanceMarginRate })
    );
    ws.liquidity.maintenance_margin_rate_valid = true;
    assert_eq!(
        validate_workspace(&ws),
        Err(ConfigError::InvalidNumeric { guard: NumericGuard::HeatmapRetention })
    );
}

#[test]
fn platform_bind_is_trimmed_and_loopback() {
    let mut platform = PlatformConfig::default();
    platform.server.bind = "  ::1 ".to_string();
    assert!(validate_platform(&platform).is_ok());
    platform.server.bind = "   ".to_string();
    assert_eq!(
        validate_platform(&platform),
        Err(ConfigError::InvalidNumeric { guard: NumericGuard::ServerBindEmpty })
    );
    platform.server.bind = "localhost".to_string();
    platform.candle_buffer.size = 0;
    assert_eq!(
        validate_platform(&platform),
        Err(ConfigError::InvalidNumeric { guard: NumericGuard::CandleBufferSize })
    );
}

#[test]
fn legacy_key_message_names_the_instance() {
    let raw = "[workspace]\nid = \"main\"\n\n[[workspace.instances]]\nid = \"sol\"\nsymbol = \"SOL-USDT\"\nslow_term = 1\n";
    assert_eq!(
        reject_raw(raw),
        Err(ConfigError::LegacyTimeframeKey { key: "instance SOL-USDT: slow_term".to_string() })
    );
    let raw = "[workspace]\nid = \"main\"\nactive_slots = []\n";
    assert_eq!(
        reject_raw(raw),
        Err(ConfigError::LegacyTimeframeKey { key: "[workspace].active_slots".to_string() })
    );
}

#[test]
fn legacy_file_verdict_names_the_first_present_file() {
    assert!(legacy_file_verdict(&vec![false, false, false]).is_ok());
    assert_eq!(
        legacy_file_verdict(&vec![false, true, true]),
        Err(ConfigError::LegacyFile { path: "workspaces.json".to_string() })
    );
}

#[test]
fn duration_labels_round_trip_over_the_pool() {
    for secs in SUPPORTED_DURATIONS {
        assert_eq!(duration_from_label(&duration_label(secs)), Some(secs));
        assert!(is_supported_duration(secs));
    }
    assert_eq!(duration_label(14400), "4h");
    assert_eq!(duration_label_upper(43200), "12H");
    assert_eq!(slot_label_for(240), "240s");
    assert_eq!(duration_from_label(" 5M "), Some(300));
    assert_eq!(duration_from_label("240s"), Some(240));
    assert_eq!(duration_from_label("abc"), None);
    assert!(!is_supported_duration(240));
    assert_eq!(provenance_for(180), "T4·T5 blend");
    assert_eq!(provenance_for(7), "static default");
}

#[test]
fn duration_profile_rows_pass_validation() {
    for secs in SUPPORTED_DURATIONS {
        assert!(validate_indicators_config(&for_duration(secs)).is_ok());
    }
    let t0 = for_duration(1);
    assert_eq!(t0.ema_fast, 3);
    assert_eq!(t0.adx_trend_threshold, 18);
    assert_eq!(for_duration(3).ema_medium, 8);
    assert_eq!(for_duration(86400).ichimoku_senkou_b, 120);
    assert_eq!(for_duration(240).rsi_period, 14);
    let mut base = IndicatorsConfig::default();
    base.smc_lookback = 33;
    base.heatmap_leverage_tiers = vec![5, 25];
    let o = overlay(&base, 60);
    assert_eq!(o.smc_lookback, 33);
    assert_eq!(o.heatmap_leverage_tiers, vec![5, 25]);
    assert_eq!(o.rsi_period, 11);
}

#[test]
fn endpoints_derive_from_configuration() {
    let hl = HyperliquidConfig::default();
    assert_eq!(hl.rest_url(), "https://api.hyperliquid.xyz/info");
    let bg = BitgetConfig::default();
    assert_eq!(bg.rest_url(), "https://api.bitget.com/api/v2/mix/market/candles");
    assert_eq!(bg.ticker_url(), "https://api.bitget.com/api/v2/mix/market/ticker");
}

#[test]
fn fibonacci_defaults() {
    let cfg = FibonacciConfig::default();
    assert_eq!(cfg.swing_lookback, 10);
    assert_eq!(cfg.swing_scan_range, 120);
}

#[test]
fn healing_a_ladder_twice_changes_nothing() {
    let configured = vec![300u64, 7, 1, 300, 86_400, 60, 2, 1];
    let healed = heal_ladder(&configured);
    assert_eq!(healed, vec![1, 60, 300, 86_400]);
    assert_eq!(heal_ladder(&healed), healed);
    assert_eq!(heal_ladder(&vec![]), Vec::<u64>::new());
}

#[test]
fn legacy_key_verdict_names_the_first_retired_key() {
    let inst = TomlValue::Table(vec![
        ("symbol".to_string(), TomlValue::Text("ETH-USDT".to_string())),
        ("fast_term".to_string(), TomlValue::Scalar),
        ("micro_term".to_string(), TomlValue::Scalar),
    ]);
    let root = TomlValue::Table(vec![(
        "workspace".to_string(),
        TomlValue::Table(vec![("instances".to_string(), TomlValue::Array(vec![inst]))]),
    )]);
    assert_eq!(
        legacy_key_verdict(&root),
        Err(ConfigError::LegacyTimeframeKey { key: "instance ETH-USDT: micro_term".to_string() })
    );
    assert_eq!(
        reject_raw("[workspace]\nactive_slots = []\n"),
        Err(ConfigError::LegacyTimeframeKey { key: "[workspace].active_slots".to_string() })
    );
    assert_eq!(reject_raw("this is = = not toml"), Ok(()));
    assert_eq!(reject_raw("[[workspace.instances]]\nmacro_term = 1\n").map_err(|_| ()), Err(()));
}

fn named_strategy(name: &str, base: Option<&str>) -> StrategyConfig {
    let mut s = StrategyConfig::default();
    s.name = name.to_string();
    s.base = base.map(|b| b.to_string());
    s
}

#[test]
fn default_workspace_resolves_the_default_strategy() {
    let ws = WorkspaceConfig::default();
    let s = ws.resolve_strategy("default").expect("default resolves");
    assert_eq!(s.name, "default");
    assert!(s.base.is_none());
    assert_eq!(s.schema_version, 1);
    assert_eq!(s.tae.execution.entry_mode, "zone_midpoint");
    assert!(s.validate().is_empty());
}

#[test]
fn resolving_a_chain_keeps_the_leaf_settings_and_clears_the_base() {
    let mut ws = WorkspaceConfig::default();
    let mut leaf = named_strategy("leaf", Some("mid"));
    leaf.tae.lifecycle.max_open_positions = 3;
    ws.strategies = vec![leaf, named_strategy("mid", Some("default"))];
    let s = ws.resolve_strategy("leaf").expect("chain resolves");
    assert_eq!(s.name, "leaf");
    assert!(s.base.is_none());
    assert_eq!(s.tae.lifecycle.max_open_positions, 3);
}

#[test]
fn resolving_by_name_reports_each_failure() {
    let mut ws = WorkspaceConfig::default();
    assert_eq!(ws.resolve_strategy("nope"), Err(ResolveError::NotFound("nope".to_string())));
    ws.strategies = vec![named_strategy("a", Some("a"))];
    assert_eq!(ws.resolve_strategy("a"), Err(ResolveError::SelfInherit("a".to_string())));
    ws.strategies = vec![named_strategy("a", Some("b")), named_strategy("b", Some("a"))];
    assert_eq!(ws.resolve_strategy("a"), Err(ResolveError::Cycle("a".to_string())));
    ws.strategies = vec![named_strategy("a", Some("zzz"))];
    assert_eq!(
        ws.resolve_strategy("a"),
        Err(ResolveError::BaseNotFound { base: "zzz".to_string(), child: "a".to_string() })
    );
}

#[test]
fn duration_labels_parse_back_in_either_case() {
    for secs in SUPPORTED_DURATIONS {
        assert_eq!(duration_from_label(&duration_label(secs)), Some(secs));
        assert_eq!(duration_from_label(&duration_label_upper(secs)), Some(secs));
    }
    assert_eq!(duration_from_label("60"), Some(60));
    assert_eq!(duration_from_label(" 5m "), Some(300));
    assert_eq!(duration_from_label("abc"), None);
}
