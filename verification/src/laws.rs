//! The laws of the tick state machine, proved once and for all over
//! [`tick_model`](crate::tick::tick_model), which the executable tick is
//! proved to implement.

use vstd::prelude::*;
use crate::state::{ObservationModel, StateModel};
use crate::text::is_rerun_title;
use crate::tick::{tick_model, EffectModel, VerdictModel};

verus! {

/// Law: an offline observation increments the consecutive offline count
/// by exactly one, leaves the last known game and the threshold
/// untouched, and emits no effect.
pub proof fn lemma_offline_tick(s: StateModel)
    ensures
        tick_model(s, ObservationModel::Offline).next.consecutive_offline_count
            == s.consecutive_offline_count + 1,
        tick_model(s, ObservationModel::Offline).next.current_game == s.current_game,
        tick_model(s, ObservationModel::Offline).next.offline_threshold == s.offline_threshold,
        tick_model(s, ObservationModel::Offline).effect is None,
{
}

/// Law: once the consecutive offline count reaches the threshold the
/// verdict is to terminate, carrying that count; while the updated count
/// stays strictly below the threshold the loop goes on.
pub proof fn lemma_offline_threshold(s: StateModel)
    ensures
        tick_model(s, ObservationModel::Offline).next.consecutive_offline_count
            == s.offline_threshold ==> tick_model(s, ObservationModel::Offline).verdict
            == (VerdictModel::TerminateOffline { count: s.offline_threshold }),
        tick_model(s, ObservationModel::Offline).next.consecutive_offline_count
            >= s.offline_threshold ==> tick_model(s, ObservationModel::Offline).verdict
            == (VerdictModel::TerminateOffline { count: s.consecutive_offline_count + 1 }),
        tick_model(s, ObservationModel::Offline).next.consecutive_offline_count
            < s.offline_threshold ==> tick_model(s, ObservationModel::Offline).verdict
            is Continue,
{
}

/// Law: a rerun title terminates the run, carrying the title; no effect
/// is emitted and the last known game is kept, even where the declared
/// game differs from it — rerun detection takes priority over change
/// detection.
pub proof fn lemma_rerun_terminates(s: StateModel, game: Seq<char>, title: Seq<char>)
    ensures
        is_rerun_title(title) ==> {
            &&& tick_model(s, (ObservationModel::Online { game, title })).verdict
                == (VerdictModel::TerminateRerun { title })
            &&& tick_model(s, (ObservationModel::Online { game, title })).effect is None
            &&& tick_model(s, (ObservationModel::Online { game, title })).next.current_game
                == s.current_game
        },
{
}

/// Law: an online, non-rerun observation resets the offline count; it
/// emits exactly one persist-and-notify effect, carrying the observed
/// game and title, precisely when the observed game differs from the
/// last known one, and then commits that game as the new last known
/// value.
pub proof fn lemma_online_change(s: StateModel, game: Seq<char>, title: Seq<char>)
    ensures
        !is_rerun_title(title) && game == s.current_game ==> {
            &&& tick_model(s, (ObservationModel::Online { game, title })).effect is None
            &&& tick_model(s, (ObservationModel::Online { game, title })).next.current_game
                == s.current_game
            &&& tick_model(
                s,
                (ObservationModel::Online { game, title }),
            ).next.consecutive_offline_count == 0
            &&& tick_model(s, (ObservationModel::Online { game, title })).verdict is Continue
        },
        !is_rerun_title(title) && game != s.current_game ==> {
            &&& tick_model(s, (ObservationModel::Online { game, title })).effect == Some(
                (EffectModel { game, title }),
            )
            &&& tick_model(s, (ObservationModel::Online { game, title })).next.current_game
                == game
            &&& tick_model(
                s,
                (ObservationModel::Online { game, title }),
            ).next.consecutive_offline_count == 0
            &&& tick_model(s, (ObservationModel::Online { game, title })).verdict is Continue
        },
{
}

/// Law: the offline count is never partially updated — every tick
/// either resets it to zero or increments it by exactly one, and the
/// configured threshold never changes.
pub proof fn lemma_count_step(s: StateModel, o: ObservationModel)
    ensures
        tick_model(s, o).next.consecutive_offline_count == 0 || tick_model(
            s,
            o,
        ).next.consecutive_offline_count == s.consecutive_offline_count + 1,
        tick_model(s, o).next.offline_threshold == s.offline_threshold,
{
}

/// Law: the last known game changes only as the direct result of one
/// online, non-rerun observation whose game differs from the stored
/// value — and that tick also emits the persist-and-notify effect.
pub proof fn lemma_game_changes_only_on_change(s: StateModel, o: ObservationModel)
    ensures
        tick_model(s, o).next.current_game != s.current_game ==> {
            &&& o matches ObservationModel::Online { game, title }
            &&& !is_rerun_title(title)
            &&& game != s.current_game
            &&& tick_model(s, o).next.current_game == game
            &&& tick_model(s, o).effect == Some((EffectModel { game, title }))
        },
{
}

/// Law: feeding the same online, non-rerun observation twice in a row
/// emits an effect only on the tick where the game actually changed; the
/// second tick emits nothing and leaves the state where the first left
/// it.
pub proof fn lemma_online_idempotent(s: StateModel, game: Seq<char>, title: Seq<char>)
    ensures
        !is_rerun_title(title) ==> {
            let first = tick_model(s, (ObservationModel::Online { game, title }));
            let second = tick_model(first.next, (ObservationModel::Online { game, title }));
            &&& (first.effect is Some <==> game != s.current_game)
            &&& second.effect is None
            &&& second.next.current_game == first.next.current_game
            &&& second.next.consecutive_offline_count == first.next.consecutive_offline_count
            &&& second.next.offline_threshold == first.next.offline_threshold
        },
{
}

} // verus!
