//! Error and exit-signal kinds of the monitor.
//!
//! Graceful exits (the stream staying offline, or airing a rerun) are
//! control-flow signals, not failures: the process is meant to stop with
//! a zero exit code on them. The other variants carry a message from the
//! port that failed.

use vstd::prelude::*;

verus! {

/// Why the monitor stopped of its own accord: the stream was offline for
/// the configured number of consecutive ticks, or its title marked it as
/// a rerun.
#[derive(Debug, Clone, PartialEq, Eq)]
pub enum ExitReason {
    /// The stream was offline for this many consecutive ticks.
    StreamOffline(u32),
    /// The stream title (carried here) marked the broadcast as a rerun.
    StreamRerun(String),
}

/// The error kind of the monitor. Two variants are graceful exit
/// signals; the rest wrap a failure message from one of the ports.
#[derive(Debug, Clone, PartialEq, Eq)]
pub enum GdqBotError {
    /// The upstream stream-query port failed; fatal to the run.
    QueryError(String),
    /// The persistent key-value store port failed; absorbed per tick.
    StoreError(String),
    /// An outbound notification sink failed; absorbed per tick.
    NotifyError(String),
    /// Graceful exit: offline for this many consecutive ticks.
    StreamOffline(u32),
    /// Graceful exit: the broadcast is a rerun with this title.
    StreamRerun(String),
    /// Any other failure, as a message.
    Other(String),
}

impl GdqBotError {
    /// Whether this error is a graceful exit signal rather than a failure.
    pub open spec fn is_graceful_spec(&self) -> bool {
        self is StreamOffline || self is StreamRerun
    }

    /// Tells a graceful exit signal (process exits zero) from a real
    /// failure (process exits non-zero).
    pub fn is_graceful_exit(&self) -> (b: bool)
        ensures
            b == self.is_graceful_spec(),
    {
        match self {
            GdqBotError::StreamOffline(_) => true,
            GdqBotError::StreamRerun(_) => true,
            _ => false,
        }
    }
}

impl ExitReason {
    /// Turns a loop-control exit reason into the matching error variant,
    /// which is always a graceful one.
    pub fn into_error(self) -> (e: GdqBotError)
        ensures
            self matches ExitReason::StreamOffline(c) ==> e matches GdqBotError::StreamOffline(
                c2,
            ) && c2 == c,
            self matches ExitReason::StreamRerun(t) ==> e matches GdqBotError::StreamRerun(t2)
                && t2@ == t@,
            e.is_graceful_spec(),
    {
        match self {
            ExitReason::StreamOffline(c) => GdqBotError::StreamOffline(c),
            ExitReason::StreamRerun(t) => GdqBotError::StreamRerun(t),
        }
    }
}

} // verus!
