//! Platform-level configuration: the exchange endpoints, clock monitor,
//! data quality, reconnect timings, candle buffer, snapshot export and the
//! dashboard server, and the guards it must pass.
use vstd::prelude::*;
use vstd::string::*;
use crate::models::{
    BitgetConfig, CandleBufferConfig, ClockMonitorTomlConfig, HyperliquidConfig, ReconnectConfig,
    SnapshotExportConfig,
};
use crate::sections::QualityConfig;
use crate::text::{chars_of, same_text, string_from_chars, trim_chars, trim_seq, trim_start_seq};
use crate::workspace::{ConfigError, NumericGuard, ServerConfig, guard_result};

verus! {

/// Platform-level configuration, read once at start-up.
#[derive(Debug, Clone, PartialEq, Eq)]
pub struct PlatformConfig {
    pub hyperliquid: HyperliquidConfig,
    pub bitget: BitgetConfig,
    /// The clock-drift monitor, when configured.
    pub clock_monitor: Option<ClockMonitorTomlConfig>,
    /// The median price filter, when configured.
    pub quality: Option<QualityConfig>,
    pub reconnect: ReconnectConfig,
    pub candle_buffer: CandleBufferConfig,
    pub snapshot_export: SnapshotExportConfig,
    pub server: ServerConfig,
}

impl PlatformConfig {
    /// The settings of the default value.
    pub open spec fn is_default(self) -> bool {
        &&& self.hyperliquid.is_default()
        &&& self.bitget.is_default()
        &&& self.clock_monitor is None
        &&& self.quality is None
        &&& self.reconnect.is_default()
        &&& self.candle_buffer.is_default()
        &&& self.snapshot_export.is_default()
        &&& self.server.is_default()
    }
}

impl Default for PlatformConfig {
    fn default() -> (p: Self)
        ensures
            p.is_default(),
    {
        PlatformConfig {
            hyperliquid: HyperliquidConfig::default(),
            bitget: BitgetConfig::default(),
            clock_monitor: None,
            quality: None,
            reconnect: ReconnectConfig::default(),
            candle_buffer: CandleBufferConfig::default(),
            snapshot_export: SnapshotExportConfig::default(),
            server: ServerConfig::default(),
        }
    }
}

/// The loopback addresses the server may bind.
pub open spec fn is_loopback_bind(bind: Seq<char>) -> bool {
    bind == "127.0.0.1"@ || bind == "::1"@ || bind == "localhost"@
}

/// The first platform guard that fails: the median window, the server
/// port, a blank bind address, a bind address that (trimmed) is not
/// loopback, and the candle buffer size.
pub open spec fn platform_failure(p: PlatformConfig) -> Option<NumericGuard> {
    if p.quality matches Some(q) && q.median_window_size == 0 {
        Some(NumericGuard::QualityMedianWindow)
    } else if p.server.port == 0 {
        Some(NumericGuard::ServerPort)
    } else if trim_seq(p.server.bind@).len() == 0 {
        Some(NumericGuard::ServerBindEmpty)
    } else if !is_loopback_bind(trim_seq(p.server.bind@)) {
        Some(NumericGuard::ServerBindNotLoopback)
    } else if p.candle_buffer.size == 0 {
        Some(NumericGuard::CandleBufferSize)
    } else {
        None
    }
}

/// Platform guards: a median window of at least one, a non-zero port, a
/// loopback-only bind address and a non-empty candle buffer.
pub fn validate_platform(platform: &PlatformConfig) -> (r: Result<(), ConfigError>)
    ensures
        r == guard_result(platform_failure(*platform)),
{
    match &platform.quality {
        Some(q) => {
            if q.median_window_size == 0 {
                return Err(ConfigError::InvalidNumeric { guard: NumericGuard::QualityMedianWindow });
            }
        },
        None => {},
    }
    if platform.server.port == 0 {
        return Err(ConfigError::InvalidNumeric { guard: NumericGuard::ServerPort });
    }
    let trimmed = string_from_chars(&trim_chars(&chars_of(platform.server.bind.as_str())));
    let bind = trimmed.as_str();
    if bind.unicode_len() == 0 {
        return Err(ConfigError::InvalidNumeric { guard: NumericGuard::ServerBindEmpty });
    }
    if !(same_text(bind, "127.0.0.1") || same_text(bind, "::1") || same_text(bind, "localhost")) {
        return Err(ConfigError::InvalidNumeric { guard: NumericGuard::ServerBindNotLoopback });
    }
    if platform.candle_buffer.size == 0 {
        return Err(ConfigError::InvalidNumeric { guard: NumericGuard::CandleBufferSize });
    }
    Ok(())
}

/// The default platform passes its guards.
pub proof fn lemma_default_platform_valid(p: PlatformConfig)
    requires
        p.quality is None,
        p.server.port == 3000,
        p.server.bind@ == "127.0.0.1"@,
        p.candle_buffer.size == 500,
    ensures
        platform_failure(p) is None,
{
    reveal_strlit("127.0.0.1");
    let b = p.server.bind@;
    assert(b[0] == '1' && b.last() == '1');
    assert(trim_start_seq(b) == b);
    assert(trim_seq(b) == b);
}

} // verus!
