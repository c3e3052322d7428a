//! A verified core for a single-channel stream monitor.
//!
//! The library holds the decision logic of the monitor: the tick state
//! machine that turns one poll observation into the next monitor state,
//! at most one change effect, and a loop-control verdict; the rerun
//! detection on stream titles; the configuration defaults; and the
//! formatting of the change announcement. The surrounding process — the
//! poll scheduler and the network ports it drives — lives outside the
//! library and feeds it plain values.

pub mod config;
pub mod error;
pub mod laws;
pub mod message;
pub mod state;
pub mod text;
pub mod tick;
