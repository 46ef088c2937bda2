//! A synthetic-monitoring engine: probers observe endpoints on a schedule,
//! a status-evaluation state machine turns raw observations into status
//! transitions, and channels route notification decisions to notifiers.
//!
//! The modules mirror the runtime dispatch fabric: status and counters,
//! settings normalization, the retry driver, probers, notifiers, channels,
//! and the process-wide channel manager.

pub mod text;
pub mod status;
pub mod global;
pub mod strategy;
pub mod counter;
pub mod result;
pub mod report;
pub mod prober;
pub mod http;
pub mod notifier;
pub mod retry;
pub mod channel;
pub mod manager;
pub mod conf;
pub mod engine;
