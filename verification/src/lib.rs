//! System Index: the verified core of a terminal dashboard for host metrics.
//!
//! The crate holds the pure part of the dashboard: the snapshot data model,
//! the text formatting helpers, the network probe decisions, the application
//! state machine and the mapping from state to a screen layout. Sampling the
//! host, talking to the network and driving the terminal are left to the
//! program around it, which hands plain values in and takes plain values back.

pub mod collect;
pub mod format;
pub mod models;
pub mod probe;
pub mod render;
pub mod report;
pub mod terminal;
pub mod text;
pub mod tui;

pub use models::{Bandwidth, DiskInfo, NetworkDetails, NetworkInfo, SystemInfo};
