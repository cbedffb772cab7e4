use vstd::prelude::*;

use crate::identity::{is_identity, Identity};
use crate::state::{finalize_records, ButtonProgram, GameState, GlobalState, ProgramModel, Vault};
use crate::verify_game_state::{internal_verify_game_state, lemma_finalized_wf};

verus! {

#[derive(Clone, Copy, Debug, PartialEq, Eq, Structural)]
pub enum ClaimRewardError {
    GameNotEnded,
    NotLastClicker,
    NoRewardsInVault,
}

/// What a claim does to the registry, the round and its pot: after the
/// timeout check, the first failing condition gives the error and nothing
/// but the timeout check is kept; otherwise the pot is emptied and its whole
/// balance is the reward.
pub open spec fn claim_records(gs: GlobalState, g: GameState, v: Vault, user: Identity, now: i64) -> (
    GlobalState,
    GameState,
    Vault,
    Result<u64, ClaimRewardError>,
) {
    let (gs, g) = finalize_records(gs, g, now as int);
    if !g.has_ended {
        (gs, g, v, Err(ClaimRewardError::GameNotEnded))
    } else if g.last_clicker != Some(user) {
        (gs, g, v, Err(ClaimRewardError::NotLastClicker))
    } else if v.balance == 0 {
        (gs, g, v, Err(ClaimRewardError::NoRewardsInVault))
    } else {
        (gs, g, Vault { balance: 0, ..v }, Ok(v.balance))
    }
}

/// A claim on round `game_id` of the whole program.
pub open spec fn claim_outcome(m: ProgramModel, game_id: u64, user: Identity, now: i64) -> (
    ProgramModel,
    Result<u64, ClaimRewardError>,
) {
    let id = game_id as int;
    let (gs, g, v, r) = claim_records(m.global.unwrap(), m.games[id], m.vaults[id], user, now);
    (ProgramModel { global: Some(gs), games: m.games.update(id, g), vaults: m.vaults.update(id, v) }, r)
}

/// Pays the pot out to `user` if the round has ended at time `now` and `user`
/// is its last clicker. On `Ok(reward)` the caller moves `reward` from the
/// round's pot to the user.
pub fn claim_reward(
    global_state: &mut GlobalState,
    game_state: &mut GameState,
    vault: &mut Vault,
    user: &Identity,
    now: i64,
) -> (r: Result<u64, ClaimRewardError>)
    ensures
        (*final(global_state), *final(game_state), *final(vault), r) == claim_records(
            *old(global_state),
            *old(game_state),
            *old(vault),
            *user,
            now,
        ),
{
    internal_verify_game_state(game_state, global_state, now);
    if !game_state.has_ended {
        return Err(ClaimRewardError::GameNotEnded);
    }
    if !is_identity(game_state.last_clicker, user) {
        return Err(ClaimRewardError::NotLastClicker);
    }
    if vault.balance == 0 {
        return Err(ClaimRewardError::NoRewardsInVault);
    }
    let reward_amount = vault.balance;
    vault.balance = 0;
    Ok(reward_amount)
}

/// A claim keeps the program's invariant.
pub proof fn lemma_claim_wf(m: ProgramModel, game_id: u64, user: Identity, now: i64)
    requires
        m.wf(),
        m.has_game(game_id as int),
    ensures
        claim_outcome(m, game_id, user, now).0.wf(),
{
    let id = game_id as int;
    lemma_finalized_wf(m, id, now as int);
    let f = m.finalized(id, now as int);
    let after = claim_outcome(m, game_id, user, now).0;
    assert(after.games =~= f.games);
    assert forall|i: int| 0 <= i < after.vaults.len() && i != id implies after.vaults[i]
        == f.vaults[i] by {}
    if claim_outcome(m, game_id, user, now).1 is Err {
        assert(after.vaults =~= f.vaults);
    }
}

impl ButtonProgram {
    /// Claims the pot of round `game_id`; see [`claim_reward`].
    pub fn claim_reward(&mut self, game_id: u64, user: &Identity, now: i64) -> (r: Result<
        u64,
        ClaimRewardError,
    >)
        requires
            old(self)@.wf(),
            old(self)@.has_game(game_id as int),
        ensures
            (final(self)@, r) == claim_outcome(old(self)@, game_id, *user, now),
            final(self)@.wf(),
    {
        let id = self.index_of(game_id);
        let mut global = self.global_state.unwrap();
        let mut game = self.games[id];
        let mut vault = self.vaults[id];
        let r = claim_reward(&mut global, &mut game, &mut vault, user, now);
        self.global_state = Some(global);
        self.games.set(id, game);
        self.vaults.set(id, vault);
        proof {
            lemma_claim_wf(old(self)@, game_id, *user, now);
            let expected = claim_outcome(old(self)@, game_id, *user, now).0;
            assert(self@.games =~= expected.games);
            assert(self@.vaults =~= expected.vaults);
        }
        r
    }
}

} // verus!
