//! The monitor's in-memory state and the per-tick observation.
//!
//! One `MonitorState` value lives for the whole run: the last known game,
//! the count of consecutive offline ticks, and the configured offline
//! threshold. Each poll tick produces one ephemeral `StreamObservation`.

use vstd::prelude::*;

verus! {

/// The mathematical value of a [`MonitorState`].
#[verifier::ext_equal]
pub struct StateModel {
    /// Last known game; empty before the first successful read.
    pub current_game: Seq<char>,
    /// Consecutive offline ticks since the last online tick.
    pub consecutive_offline_count: int,
    /// Offline ticks after which the monitor terminates gracefully.
    pub offline_threshold: int,
}

impl StateModel {
    /// Validity of a state: the threshold is positive, and the offline
    /// count never runs past the point where the monitor terminates.
    pub open spec fn wf(self) -> bool {
        &&& self.offline_threshold >= 1
        &&& 0 <= self.consecutive_offline_count <= self.offline_threshold
    }
}

/// The state the poll loop reads and commits between ticks.
#[derive(Debug, Clone, PartialEq, Eq)]
pub struct MonitorState {
    /// Last known game value; empty string before the first successful read.
    pub current_game: String,
    /// Consecutive offline ticks since the last online tick.
    pub consecutive_offline_count: u32,
    /// Number of consecutive offline ticks that triggers graceful
    /// termination; configured at startup, immutable thereafter.
    pub offline_threshold: u32,
}

impl View for MonitorState {
    type V = StateModel;

    open spec fn view(&self) -> StateModel {
        StateModel {
            current_game: self.current_game@,
            consecutive_offline_count: self.consecutive_offline_count as int,
            offline_threshold: self.offline_threshold as int,
        }
    }
}

impl MonitorState {
    /// Validity of the in-memory state; see [`StateModel::wf`].
    pub open spec fn wf(&self) -> bool {
        self@.wf()
    }

    /// A fresh state: no game known yet, no offline ticks seen.
    pub fn new(offline_threshold: u32) -> (s: Self)
        requires
            offline_threshold >= 1,
        ensures
            s@.current_game.len() == 0,
            s@.consecutive_offline_count == 0,
            s@.offline_threshold == offline_threshold,
            s.wf(),
    {
        MonitorState {
            current_game: String::new(),
            consecutive_offline_count: 0,
            offline_threshold,
        }
    }

    /// Seeds the last known game from the persisted value read at
    /// startup, when that read succeeded; a failed or absent read leaves
    /// the fail-open default in place and the state otherwise untouched.
    pub fn seed(&mut self, stored: Option<String>)
        ensures
            stored matches Some(game) ==> final (self)@.current_game == game@,
            stored is None ==> final (self)@.current_game == old(self)@.current_game,
            final (self)@.consecutive_offline_count == old(self)@.consecutive_offline_count,
            final (self)@.offline_threshold == old(self)@.offline_threshold,
            old(self).wf() ==> final (self).wf(),
    {
        match stored {
            Some(game) => {
                self.current_game = game;
            },
            None => {},
        }
    }
}

/// What one poll of the stream-query port reported: the stream is
/// offline, or online with a declared game and title.
#[derive(Debug, Clone, PartialEq, Eq)]
pub enum StreamObservation {
    /// The channel is not broadcasting.
    Offline,
    /// The channel is broadcasting this game under this title.
    Online { game: String, title: String },
}

/// The mathematical value of a [`StreamObservation`].
#[verifier::ext_equal]
pub enum ObservationModel {
    Offline,
    Online { game: Seq<char>, title: Seq<char> },
}

impl View for StreamObservation {
    type V = ObservationModel;

    open spec fn view(&self) -> ObservationModel {
        match self {
            StreamObservation::Offline => ObservationModel::Offline,
            StreamObservation::Online { game, title } => ObservationModel::Online {
                game: game@,
                title: title@,
            },
        }
    }
}

/// One stream record as the query port reports it: the declared game and
/// the broadcast title.
#[derive(Debug, Clone, PartialEq, Eq)]
pub struct StreamRecord {
    pub game: String,
    pub title: String,
}

/// Folds the query port's answer into an observation: an empty record
/// list means the channel is offline, otherwise the first record speaks
/// for the channel.
pub fn observation_of_records(records: Vec<StreamRecord>) -> (obs: StreamObservation)
    ensures
        records@.len() == 0 ==> obs is Offline,
        records@.len() > 0 ==> {
            &&& obs matches StreamObservation::Online { game, title }
            &&& game@ == records@[0].game@
            &&& title@ == records@[0].title@
        },
{
    let mut records = records;
    if records.len() == 0 {
        StreamObservation::Offline
    } else {
        let first = records.remove(0);
        StreamObservation::Online { game: first.game, title: first.title }
    }
}

} // verus!
