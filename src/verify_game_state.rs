use vstd::prelude::*;

use crate::state::{ended, finalize_records, is_due, ButtonProgram, GameState, GlobalState, ProgramModel};

verus! {

/// Closes the round if its timeout has passed at `current_timestamp`, and
/// then clears the registry's active round; otherwise changes nothing.
pub fn internal_verify_game_state(
    game_state: &mut GameState,
    global_state: &mut GlobalState,
    current_timestamp: i64,
)
    ensures
        (*final(global_state), *final(game_state)) == finalize_records(
            *old(global_state),
            *old(game_state),
            current_timestamp as int,
        ),
{
    if game_state.is_active && !game_state.has_ended {
        if let Some(last_click_time) = game_state.last_click_timestamp {
            // the difference of two i64 values always fits in i128
            if (current_timestamp as i128) - (last_click_time as i128)
                >= game_state.game_time_sec as i128 {
                game_state.is_active = false;
                game_state.has_ended = true;
                global_state.active_game_id = None;
            }
        }
    }
}

/// The timeout check as an instruction of its own, on the registry and one
/// round, at time `now`.
pub fn verify_game_state(global_state: &mut GlobalState, game_state: &mut GameState, now: i64)
    ensures
        (*final(global_state), *final(game_state)) == finalize_records(
            *old(global_state),
            *old(game_state),
            now as int,
        ),
{
    internal_verify_game_state(game_state, global_state, now);
}

/// The timeout check keeps the program's invariant.
pub proof fn lemma_finalized_wf(m: ProgramModel, id: int, now: int)
    requires
        m.wf(),
        m.has_game(id),
    ensures
        m.finalized(id, now).wf(),
        is_due(m.games[id], now) ==> m.finalized(id, now).games[id] == ended(m.games[id]),
        !is_due(m.games[id], now) ==> m.finalized(id, now) == m,
{
    let f = m.finalized(id, now);
    if is_due(m.games[id], now) {
        assert forall|i: int| 0 <= i < f.games.len() implies !(f.games[i].is_active) by {
            if i != id {
                assert(m.games[i] == f.games[i]);
            }
        }
    } else {
        assert(f.games =~= m.games);
    }
}

impl ButtonProgram {
    /// Brings the stored round `game_id` up to date with the time `now`.
    pub fn verify_game_state(&mut self, game_id: u64, now: i64)
        requires
            old(self)@.wf(),
            old(self)@.has_game(game_id as int),
        ensures
            final(self)@ == old(self)@.finalized(game_id as int, now as int),
            final(self)@.wf(),
    {
        let id = self.index_of(game_id);
        let mut global = self.global_state.unwrap();
        let mut game = self.games[id];
        internal_verify_game_state(&mut game, &mut global, now);
        self.games.set(id, game);
        self.global_state = Some(global);
        proof {
            lemma_finalized_wf(old(self)@, id as int, now as int);
            assert(self@.games =~= old(self)@.finalized(id as int, now as int).games);
        }
    }
}

} // verus!
