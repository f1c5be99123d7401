//! Platform configuration models, timeframe identity and the numeric
//! guards that decide whether a configuration can run.
pub mod text;

pub mod durations;
pub mod models;
pub mod indicators;
pub mod strategy;
pub mod sections;
pub mod workspace;
pub mod platform;
pub mod legacy;
pub mod recovery;
pub mod pipeline;
pub mod market;
pub mod snapshot_export;
pub mod backtest;
pub mod replay;
pub mod merge;
