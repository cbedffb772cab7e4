use vstd::prelude::*;

use crate::identity::Identity;
use crate::state::{ButtonProgram, GameState, GlobalState, ProgramModel, Vault};

verus! {

#[derive(Clone, Copy, Debug, PartialEq, Eq, Structural)]
pub enum CreateGameError {
    Unauthorized,
    RoundAlreadyActive,
    InvalidDuration,
}

/// What opening a round does to the registry. Only the operator may open
/// one, only while no round is active, and only with a timeout of at least
/// one second. The new round takes the next number, starts open with no
/// leader, no stakes and an empty pot owned by `user`, and becomes the active
/// round.
pub open spec fn create_records(gs: GlobalState, user: Identity, deposit_amount: u64, game_time_sec: i64) -> (
    GlobalState,
    Result<(GameState, Vault), CreateGameError>,
) {
    if gs.authority != user {
        (gs, Err(CreateGameError::Unauthorized))
    } else if gs.active_game_id.is_some() {
        (gs, Err(CreateGameError::RoundAlreadyActive))
    } else if game_time_sec < 1 {
        (gs, Err(CreateGameError::InvalidDuration))
    } else {
        let id = gs.next_game_id;
        (
            GlobalState { next_game_id: (id + 1) as u64, active_game_id: Some(id), ..gs },
            Ok(
                (
                    GameState {
                        last_clicker: None,
                        game_id: id,
                        click_number: 0,
                        is_active: true,
                        has_ended: false,
                        last_click_timestamp: None,
                        game_time_sec,
                    },
                    Vault { authority: user, balance: 0, deposit_amount },
                ),
            ),
        )
    }
}

/// Opening a round in the whole program; no one may before the registry is
/// set up. On success the result is the new round's number.
pub open spec fn create_outcome(
    m: ProgramModel,
    user: Identity,
    deposit_amount: u64,
    game_time_sec: i64,
) -> (ProgramModel, Result<u64, CreateGameError>) {
    match m.global {
        None => (m, Err(CreateGameError::Unauthorized)),
        Some(gs) => match create_records(gs, user, deposit_amount, game_time_sec) {
            (gs2, Ok((g, v))) => (
                ProgramModel { global: Some(gs2), games: m.games.push(g), vaults: m.vaults.push(v) },
                Ok(g.game_id),
            ),
            (_, Err(e)) => (m, Err(e)),
        },
    }
}

/// Opens a new round with the given stake and timeout: updates the registry
/// and returns the round's record and its pot.
pub fn create_new_game(
    global_state: &mut GlobalState,
    user: &Identity,
    deposit_amount: u64,
    game_time_sec: i64,
) -> (r: Result<(GameState, Vault), CreateGameError>)
    requires
        old(global_state).next_game_id < u64::MAX,
    ensures
        (*final(global_state), r) == create_records(
            *old(global_state),
            *user,
            deposit_amount,
            game_time_sec,
        ),
{
    if !global_state.authority.same_as(user) {
        return Err(CreateGameError::Unauthorized);
    }
    if global_state.active_game_id.is_some() {
        return Err(CreateGameError::RoundAlreadyActive);
    }
    if game_time_sec < 1 {
        return Err(CreateGameError::InvalidDuration);
    }
    let game_id = global_state.next_game_id;
    let game_state = GameState {
        last_clicker: None,
        game_id,
        click_number: 0,
        is_active: true,
        has_ended: false,
        last_click_timestamp: None,
        game_time_sec,
    };
    let vault = Vault { authority: *user, balance: 0, deposit_amount };
    global_state.active_game_id = Some(game_id);
    global_state.next_game_id = game_id + 1;
    Ok((game_state, vault))
}

/// Opening a round keeps the program's invariant.
pub proof fn lemma_create_wf(m: ProgramModel, user: Identity, deposit_amount: u64, game_time_sec: i64)
    requires
        m.wf(),
        m.global matches Some(gs) ==> gs.next_game_id < u64::MAX,
    ensures
        create_outcome(m, user, deposit_amount, game_time_sec).0.wf(),
{
    let (after, r) = create_outcome(m, user, deposit_amount, game_time_sec);
    if r is Ok {
        let id = m.games.len() as int;
        assert forall|i: int| 0 <= i < m.games.len() implies !m.games[i].is_active by {}
        assert forall|i: int| 0 <= i < m.games.len() implies after.games[i] == m.games[i]
            && after.vaults[i] == m.vaults[i] by {}
        assert(after.games[id].is_active && !after.games[id].has_ended);
    }
}

impl ButtonProgram {
    /// Opens a new round; see [`create_new_game`].
    pub fn create_new_game(&mut self, user: &Identity, deposit_amount: u64, game_time_sec: i64) -> (r:
        Result<u64, CreateGameError>)
        requires
            old(self)@.wf(),
            old(self)@.global matches Some(gs) ==> gs.next_game_id < u64::MAX,
        ensures
            (final(self)@, r) == create_outcome(old(self)@, *user, deposit_amount, game_time_sec),
            final(self)@.wf(),
    {
        let mut global = match self.global_state {
            Some(gs) => gs,
            None => {
                return Err(CreateGameError::Unauthorized);
            },
        };
        match create_new_game(&mut global, user, deposit_amount, game_time_sec) {
            Ok((game_state, vault)) => {
                let game_id = game_state.game_id;
                self.games.push(game_state);
                self.vaults.push(vault);
                self.global_state = Some(global);
                proof {
                    lemma_create_wf(old(self)@, *user, deposit_amount, game_time_sec);
                }
                Ok(game_id)
            },
            Err(e) => Err(e),
        }
    }
}

} // verus!
