//! Shared types of the periodic snapshot export: the tabs it can write,
//! its runtime status and the envelope of every snapshot file.
use vstd::prelude::*;
use vstd::string::*;

verus! {

/// Number of tabs the scheduler can write.
pub const TAB_COUNT: usize = 9;

/// The tabs the scheduler can write, by their stable wire identifiers.
pub const ALL_TABS: [&'static str; 9] = [
    "metrics",
    "mtf",
    "alignment",
    "opportunity",
    "risk",
    "analysis",
    "advisory",
    "decision",
    "recommendation",
];

/// The tab identifiers, in order.
pub open spec fn all_tabs_seq() -> Seq<Seq<char>> {
    seq![
        "metrics"@,
        "mtf"@,
        "alignment"@,
        "opportunity"@,
        "risk"@,
        "analysis"@,
        "advisory"@,
        "decision"@,
        "recommendation"@,
    ]
}

/// The live state of the export scheduler.
#[derive(Debug, Clone, PartialEq, Eq)]
pub struct SnapshotExportRuntime {
    pub enabled: bool,
    pub output_path: String,
    pub interval_secs: u64,
    pub max_snapshots_retained: u32,
    /// The effective tab list.
    pub tabs: Vec<String>,
    /// When the last snapshot was written, in epoch milliseconds (UTC).
    pub last_snapshot_at: Option<i64>,
    pub total_snapshots_written: u64,
    pub last_error: Option<String>,
    /// Instance count at the last successful tick.
    pub last_instance_count: u32,
}

fn default_output_path() -> (s: String)
    ensures
        s@ == "./snapshots"@,
{
    String::from_str("./snapshots")
}

fn all_tab_strings() -> (tabs: Vec<String>)
    ensures
        tabs@.len() == TAB_COUNT,
        forall|i: int| 0 <= i < TAB_COUNT ==> #[trigger] tabs@[i]@ == all_tabs_seq()[i],
{
    let mut tabs: Vec<String> = Vec::new();
    tabs.push(String::from_str("metrics"));
    tabs.push(String::from_str("mtf"));
    tabs.push(String::from_str("alignment"));
    tabs.push(String::from_str("opportunity"));
    tabs.push(String::from_str("risk"));
    tabs.push(String::from_str("analysis"));
    tabs.push(String::from_str("advisory"));
    tabs.push(String::from_str("decision"));
    tabs.push(String::from_str("recommendation"));
    tabs
}

impl SnapshotExportRuntime {
    /// The settings of the default value.
    pub open spec fn is_default(self) -> bool {
        &&& !self.enabled
        &&& self.output_path@ == "./snapshots"@
        &&& self.interval_secs == 60
        &&& self.max_snapshots_retained == 1000
        &&& self.tabs@.len() == TAB_COUNT
        &&& forall|i: int| 0 <= i < TAB_COUNT ==> #[trigger] self.tabs@[i]@ == all_tabs_seq()[i]
        &&& self.last_snapshot_at is None
        &&& self.total_snapshots_written == 0
        &&& self.last_error is None
        &&& self.last_instance_count == 0
    }
}

impl Default for SnapshotExportRuntime {
    /// Disabled, writing every tab each 60 s to `./snapshots`, keeping 1000
    /// snapshots; nothing written yet.
    fn default() -> (rt: Self)
        ensures
            rt.is_default(),
    {
        SnapshotExportRuntime {
            enabled: false,
            output_path: default_output_path(),
            interval_secs: 60,
            max_snapshots_retained: 1000,
            tabs: all_tab_strings(),
            last_snapshot_at: None,
            total_snapshots_written: 0,
            last_error: None,
            last_instance_count: 0,
        }
    }
}

/// Envelope of a snapshot file: its metadata and the tab's payload.
#[derive(Debug, Clone)]
pub struct SnapshotEnvelope<T> {
    pub snapshot_metadata: SnapshotMetadata,
    pub payload: T,
}

/// Where and when a snapshot was taken.
#[derive(Debug, Clone, PartialEq, Eq)]
pub struct SnapshotMetadata {
    /// UTC timestamp at which the tick fired.
    pub datetime_utc: String,
    /// Epoch milliseconds.
    pub timestamp_ms: i64,
    /// Tab identifier.
    pub tab: String,
    /// Source instance pair key.
    pub pair_key: String,
    /// Duration label of the source timeframe.
    pub timeframe_label: String,
    /// Duration of the source timeframe, in seconds.
    pub timeframe_secs: u64,
}

} // verus!
