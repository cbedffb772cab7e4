use vstd::prelude::*;

use crate::identity::{is_identity, Identity};
use crate::state::{finalize_records, ButtonProgram, GameState, GlobalState, ProgramModel, Vault};
use crate::verify_game_state::{internal_verify_game_state, lemma_finalized_wf};

verus! {

#[derive(Clone, Copy, Debug, PartialEq, Eq, Structural)]
pub enum ClickButtonError {
    GameEnded,
    GameNotActive,
    IncorrectAmount,
    AlreadyLeader,
    InsufficientFunds,
}

/// What a stake does to the registry, the round and its pot: after the
/// timeout check, the first failing condition gives the error and nothing
/// but the timeout check is kept; otherwise the stake enters the pot and
/// `user` becomes the leader as of `now`.
pub open spec fn click_records(
    gs: GlobalState,
    g: GameState,
    v: Vault,
    user: Identity,
    user_lamports: u64,
    amount: u64,
    now: i64,
) -> (GlobalState, GameState, Vault, Result<(), ClickButtonError>) {
    let (gs, g) = finalize_records(gs, g, now as int);
    if g.has_ended {
        (gs, g, v, Err(ClickButtonError::GameEnded))
    } else if !g.is_active {
        (gs, g, v, Err(ClickButtonError::GameNotActive))
    } else if amount != v.deposit_amount {
        (gs, g, v, Err(ClickButtonError::IncorrectAmount))
    } else if g.last_clicker == Some(user) {
        (gs, g, v, Err(ClickButtonError::AlreadyLeader))
    } else if user_lamports < amount {
        (gs, g, v, Err(ClickButtonError::InsufficientFunds))
    } else {
        (
            gs,
            GameState {
                last_clicker: Some(user),
                last_click_timestamp: Some(now),
                click_number: (g.click_number + 1) as u64,
                ..g
            },
            Vault { balance: (v.balance + amount) as u64, ..v },
            Ok(()),
        )
    }
}

/// A stake on round `game_id` of the whole program.
pub open spec fn click_outcome(
    m: ProgramModel,
    game_id: u64,
    user: Identity,
    user_lamports: u64,
    amount: u64,
    now: i64,
) -> (ProgramModel, Result<(), ClickButtonError>) {
    let id = game_id as int;
    let (gs, g, v, r) = click_records(
        m.global.unwrap(),
        m.games[id],
        m.vaults[id],
        user,
        user_lamports,
        amount,
        now,
    );
    (ProgramModel { global: Some(gs), games: m.games.update(id, g), vaults: m.vaults.update(id, v) }, r)
}

/// Takes a stake of `amount` from `user`, whose available balance is
/// `user_lamports`, at time `now`. On `Ok` the caller moves `amount` from the
/// user to the round's pot.
pub fn click_button(
    global_state: &mut GlobalState,
    game_state: &mut GameState,
    vault: &mut Vault,
    user: &Identity,
    user_lamports: u64,
    amount: u64,
    now: i64,
) -> (r: Result<(), ClickButtonError>)
    requires
        old(vault).balance + old(vault).deposit_amount <= u64::MAX,
        old(game_state).click_number < u64::MAX,
    ensures
        (*final(global_state), *final(game_state), *final(vault), r) == click_records(
            *old(global_state),
            *old(game_state),
            *old(vault),
            *user,
            user_lamports,
            amount,
            now,
        ),
{
    internal_verify_game_state(game_state, global_state, now);
    if game_state.has_ended {
        return Err(ClickButtonError::GameEnded);
    }
    if !game_state.is_active {
        return Err(ClickButtonError::GameNotActive);
    }
    if amount != vault.deposit_amount {
        return Err(ClickButtonError::IncorrectAmount);
    }
    if is_identity(game_state.last_clicker, user) {
        return Err(ClickButtonError::AlreadyLeader);
    }
    if user_lamports < amount {
        return Err(ClickButtonError::InsufficientFunds);
    }
    vault.balance = vault.balance + amount;
    game_state.last_clicker = Some(*user);
    game_state.last_click_timestamp = Some(now);
    game_state.click_number = game_state.click_number + 1;
    Ok(())
}

/// A stake keeps the program's invariant.
pub proof fn lemma_click_wf(
    m: ProgramModel,
    game_id: u64,
    user: Identity,
    user_lamports: u64,
    amount: u64,
    now: i64,
)
    requires
        m.wf(),
        m.has_game(game_id as int),
        m.vaults[game_id as int].balance + m.vaults[game_id as int].deposit_amount <= u64::MAX,
        m.games[game_id as int].click_number < u64::MAX,
    ensures
        click_outcome(m, game_id, user, user_lamports, amount, now).0.wf(),
{
    let id = game_id as int;
    lemma_finalized_wf(m, id, now as int);
    let f = m.finalized(id, now as int);
    let (after, r) = click_outcome(m, game_id, user, user_lamports, amount, now);
    if r is Ok {
        let g = f.games[id];
        let v = f.vaults[id];
        assert(v.balance == v.deposit_amount * g.click_number);
        assert(v.deposit_amount * g.click_number + v.deposit_amount == v.deposit_amount * (
        g.click_number + 1)) by (nonlinear_arith);
        assert forall|i: int| 0 <= i < after.games.len() && i != id implies after.games[i]
            == f.games[i] && after.vaults[i] == f.vaults[i] by {}
        assert(after.active_matches_open_round()) by {
            assert(after.games[id].is_active && !after.games[id].has_ended);
        }
    } else {
        assert(after.games =~= f.games);
        assert(after.vaults =~= f.vaults);
        assert(after.global == f.global);
    }
}

impl ButtonProgram {
    /// Takes a stake on round `game_id`; see [`click_button`].
    pub fn click_button(
        &mut self,
        game_id: u64,
        user: &Identity,
        user_lamports: u64,
        amount: u64,
        now: i64,
    ) -> (r: Result<(), ClickButtonError>)
        requires
            old(self)@.wf(),
            old(self)@.has_game(game_id as int),
            old(self)@.vaults[game_id as int].balance
                + old(self)@.vaults[game_id as int].deposit_amount <= u64::MAX,
            old(self)@.games[game_id as int].click_number < u64::MAX,
        ensures
            (final(self)@, r) == click_outcome(old(self)@, game_id, *user, user_lamports, amount, now),
            final(self)@.wf(),
    {
        let id = self.index_of(game_id);
        let mut global = self.global_state.unwrap();
        let mut game = self.games[id];
        let mut vault = self.vaults[id];
        let r = click_button(&mut global, &mut game, &mut vault, user, user_lamports, amount, now);
        self.global_state = Some(global);
        self.games.set(id, game);
        self.vaults.set(id, vault);
        proof {
            lemma_click_wf(old(self)@, game_id, *user, user_lamports, amount, now);
            let expected = click_outcome(old(self)@, game_id, *user, user_lamports, amount, now).0;
            assert(self@.games =~= expected.games);
            assert(self@.vaults =~= expected.vaults);
        }
        r
    }
}

} // verus!
