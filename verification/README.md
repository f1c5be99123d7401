# platform_config

Configuration models and decision rules of a multi-symbol market-monitoring
and trading platform, verified with Verus.

`src/` is the verified library:

- `durations` — the supported duration pool, duration labels and their
  parsing, the default active ladder, per-duration liquidity tables.
- `models`, `sections`, `pipeline`, `snapshot_export` — configuration blocks
  with their defaults, order and lifecycle vocabulary, pipeline states.
- `indicators` — indicator periods, their guards and the per-duration
  indicator profile.
- `strategy` — strategy settings, their validation and inheritance chains.
- `merge` — the JSON patch merge used by strategy inheritance.
- `workspace`, `platform`, `legacy`, `recovery` — workspace and platform
  guards, retired configuration surfaces, and the crash-recovery decision.
- `market` — liquidity and overview vocabulary, liquidation buckets,
  cascade states and signals, the overview's symbols and the
  cross-timeframe signal count.
- `backtest`, `replay` — warm-up chunking, bar lookup, archive windows, the
  funding clock, the global replay order and the trade-record fields of a
  historical run.

`app/` holds what the library does not verify: the serde-facing copies of
the configuration types, reading and writing `config.toml`, and the
floating-point settings and profile columns.

`tests/` exercises the library from outside.
