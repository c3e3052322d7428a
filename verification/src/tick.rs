//! The tick state machine: the monitor's only decision point.
//!
//! One tick takes the current state and the latest observation and
//! yields the next state, at most one change effect, and a loop-control
//! verdict. The whole decision is pinned by `tick_model`, a spec
//! function the executable `tick` is proved to implement.

use vstd::prelude::*;
use crate::error::ExitReason;
use crate::state::{MonitorState, ObservationModel, StateModel, StreamObservation};
use crate::text::{is_rerun_title, title_is_rerun};

verus! {

/// What the loop is to do after a tick: keep polling, or stop for the
/// given graceful reason.
#[derive(Debug, Clone, PartialEq, Eq)]
pub enum Verdict {
    /// Keep polling.
    Continue,
    /// Stop the loop gracefully for this reason.
    Terminate(ExitReason),
}

/// The one side effect a tick can request: persist this game value and
/// announce the change under this title.
#[derive(Debug, Clone, PartialEq, Eq)]
pub struct ChangeEffect {
    /// The new game value, to be persisted and announced.
    pub game: String,
    /// The stream title, quoted in the announcement.
    pub title: String,
}

/// Everything one tick decides.
#[derive(Debug, Clone, PartialEq, Eq)]
pub struct TickOutcome {
    /// The state to commit after the tick.
    pub next: MonitorState,
    /// The change to persist and announce, if the game changed.
    pub effect: Option<ChangeEffect>,
    /// Whether the loop goes on or stops.
    pub verdict: Verdict,
}

/// The mathematical value of a [`Verdict`].
#[verifier::ext_equal]
pub enum VerdictModel {
    Continue,
    TerminateOffline { count: int },
    TerminateRerun { title: Seq<char> },
}

impl View for Verdict {
    type V = VerdictModel;

    open spec fn view(&self) -> VerdictModel {
        match self {
            Verdict::Continue => VerdictModel::Continue,
            Verdict::Terminate(ExitReason::StreamOffline(c)) => VerdictModel::TerminateOffline {
                count: *c as int,
            },
            Verdict::Terminate(ExitReason::StreamRerun(t)) => VerdictModel::TerminateRerun {
                title: t@,
            },
        }
    }
}

/// The mathematical value of a [`ChangeEffect`].
#[verifier::ext_equal]
pub struct EffectModel {
    pub game: Seq<char>,
    pub title: Seq<char>,
}

impl View for ChangeEffect {
    type V = EffectModel;

    open spec fn view(&self) -> EffectModel {
        EffectModel { game: self.game@, title: self.title@ }
    }
}

/// The mathematical value of a [`TickOutcome`].
#[verifier::ext_equal]
pub struct OutcomeModel {
    pub next: StateModel,
    pub effect: Option<EffectModel>,
    pub verdict: VerdictModel,
}

impl View for TickOutcome {
    type V = OutcomeModel;

    open spec fn view(&self) -> OutcomeModel {
        OutcomeModel {
            next: self.next@,
            effect: match self.effect {
                Some(e) => Some(e@),
                None => None,
            },
            verdict: self.verdict@,
        }
    }
}

/// The tick decision, in full. In order: an offline observation
/// increments the offline count and terminates once the count reaches
/// the threshold; an online observation resets the count, terminates on
/// a rerun title before anything else, and emits the one persist-and-
/// notify effect exactly when the declared game differs from the last
/// known one.
pub open spec fn tick_model(s: StateModel, o: ObservationModel) -> OutcomeModel {
    match o {
        ObservationModel::Offline => {
            let count = s.consecutive_offline_count + 1;
            OutcomeModel {
                next: StateModel { consecutive_offline_count: count, ..s },
                effect: None,
                verdict: if count >= s.offline_threshold {
                    VerdictModel::TerminateOffline { count }
                } else {
                    VerdictModel::Continue
                },
            }
        },
        ObservationModel::Online { game, title } => {
            if is_rerun_title(title) {
                OutcomeModel {
                    next: StateModel { consecutive_offline_count: 0, ..s },
                    effect: None,
                    verdict: VerdictModel::TerminateRerun { title },
                }
            } else if game != s.current_game {
                OutcomeModel {
                    next: StateModel { current_game: game, consecutive_offline_count: 0, ..s },
                    effect: Some(EffectModel { game, title }),
                    verdict: VerdictModel::Continue,
                }
            } else {
                OutcomeModel {
                    next: StateModel { consecutive_offline_count: 0, ..s },
                    effect: None,
                    verdict: VerdictModel::Continue,
                }
            }
        },
    }
}

/// One tick of the monitor: decides the next state, the effect to run,
/// and whether the loop goes on, exactly as [`tick_model`] says.
pub fn tick(state: &MonitorState, observation: StreamObservation) -> (out: TickOutcome)
    requires
        state.wf(),
        state.consecutive_offline_count < u32::MAX,
    ensures
        out@ == tick_model(state@, observation@),
        out.verdict is Continue ==> out.next.wf(),
{
    match observation {
        StreamObservation::Offline => {
            let count = state.consecutive_offline_count + 1;
            let verdict = if count >= state.offline_threshold {
                Verdict::Terminate(ExitReason::StreamOffline(count))
            } else {
                Verdict::Continue
            };
            let out = TickOutcome {
                next: MonitorState {
                    current_game: state.current_game.clone(),
                    consecutive_offline_count: count,
                    offline_threshold: state.offline_threshold,
                },
                effect: None,
                verdict,
            };
            assert(out@ =~= tick_model(state@, ObservationModel::Offline));
            out
        },
        StreamObservation::Online { game, title } => {
            if title_is_rerun(title.as_str()) {
                let out = TickOutcome {
                    next: MonitorState {
                        current_game: state.current_game.clone(),
                        consecutive_offline_count: 0,
                        offline_threshold: state.offline_threshold,
                    },
                    effect: None,
                    verdict: Verdict::Terminate(ExitReason::StreamRerun(title)),
                };
                assert(out@ =~= tick_model(state@, ObservationModel::Online {
                    game: game@,
                    title: title@,
                }));
                out
            } else if game != state.current_game {
                let out = TickOutcome {
                    next: MonitorState {
                        current_game: game.clone(),
                        consecutive_offline_count: 0,
                        offline_threshold: state.offline_threshold,
                    },
                    effect: Some(ChangeEffect { game, title }),
                    verdict: Verdict::Continue,
                };
                assert(out@ =~= tick_model(state@, ObservationModel::Online {
                    game: game@,
                    title: title@,
                }));
                out
            } else {
                let out = TickOutcome {
                    next: MonitorState {
                        current_game: state.current_game.clone(),
                        consecutive_offline_count: 0,
                        offline_threshold: state.offline_threshold,
                    },
                    effect: None,
                    verdict: Verdict::Continue,
                };
                assert(out@ =~= tick_model(state@, ObservationModel::Online {
                    game: game@,
                    title: title@,
                }));
                out
            }
        },
    }
}

/// Commits a tick: the decided next state is written back and the
/// decided verdict returned, whatever became of the persist and notify
/// attempts — a failed side effect never blocks the commit or changes
/// the verdict.
pub fn commit_tick(
    state: &mut MonitorState,
    outcome: TickOutcome,
    _persist_ok: bool,
    _notify_ok: bool,
) -> (v: Verdict)
    ensures
        *final (state) == outcome.next,
        v == outcome.verdict,
{
    let TickOutcome { next, effect: _, verdict } = outcome;
    *state = next;
    verdict
}

} // verus!
