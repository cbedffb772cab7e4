//! Properties of every state that the instructions can reach. `ButtonProgram::new`
//! establishes `ProgramModel::wf` and each instruction keeps it (see their
//! `ensures`), so what follows from `wf` holds in every reachable state.
use vstd::prelude::*;

use crate::claim_reward::{claim_outcome, lemma_claim_wf, ClaimRewardError};
use crate::click_button::{click_outcome, lemma_click_wf, ClickButtonError};
use crate::create_new_game::{create_outcome, lemma_create_wf};
use crate::identity::Identity;
use crate::state::{ended, ProgramModel};
use crate::verify_game_state::lemma_finalized_wf;

verus! {

/// Every instruction on the whole program keeps its invariant: opening a
/// round, staking, claiming and the timeout check, for any caller, amount
/// and time (within the counters' range).
pub proof fn lemma_instructions_keep_invariant(
    m: ProgramModel,
    game_id: u64,
    user: Identity,
    user_lamports: u64,
    amount: u64,
    deposit_amount: u64,
    game_time_sec: i64,
    now: i64,
)
    requires
        m.wf(),
    ensures
        m.global matches Some(gs) && gs.next_game_id < u64::MAX ==> create_outcome(
            m,
            user,
            deposit_amount,
            game_time_sec,
        ).0.wf(),
        m.has_game(game_id as int) ==> m.finalized(game_id as int, now as int).wf(),
        m.has_game(game_id as int) ==> claim_outcome(m, game_id, user, now).0.wf(),
        m.has_game(game_id as int) && m.vaults[game_id as int].balance + m.vaults[game_id as int].deposit_amount
            <= u64::MAX && m.games[game_id as int].click_number < u64::MAX ==> click_outcome(
            m,
            game_id,
            user,
            user_lamports,
            amount,
            now,
        ).0.wf(),
{
    if m.global matches Some(gs) && gs.next_game_id < u64::MAX {
        lemma_create_wf(m, user, deposit_amount, game_time_sec);
    }
    if m.has_game(game_id as int) {
        lemma_finalized_wf(m, game_id as int, now as int);
        lemma_claim_wf(m, game_id, user, now);
        if m.vaults[game_id as int].balance + m.vaults[game_id as int].deposit_amount <= u64::MAX
            && m.games[game_id as int].click_number < u64::MAX {
            lemma_click_wf(m, game_id, user, user_lamports, amount, now);
        }
    }
}

/// The registry names an active round exactly when some round is open, and
/// the round it names is open.
pub proof fn lemma_active_round_is_the_open_one(m: ProgramModel)
    requires
        m.wf(),
    ensures
        m.global matches Some(gs) ==> {
            &&& gs.active_game_id.is_some() == exists|i: int|
                #![trigger m.games[i]]
                0 <= i < m.games.len() && m.games[i].is_active && !m.games[i].has_ended
            &&& gs.active_game_id matches Some(a) ==> {
                &&& m.has_game(a as int)
                &&& m.games[a as int].is_active
                &&& !m.games[a as int].has_ended
            }
        },
        m.global is None ==> m.games.len() == 0,
{
}

/// No round is both open and ended, and none is neither.
pub proof fn lemma_round_open_xor_ended(m: ProgramModel, i: int)
    requires
        m.wf(),
        m.has_game(i),
    ensures
        m.games[i].is_active != m.games[i].has_ended,
{
}

/// Until its pot is paid out, a round's pot holds exactly one stake for each
/// accepted click; once paid out it holds nothing.
pub proof fn lemma_pot_is_stakes_times_clicks(m: ProgramModel, i: int)
    requires
        m.wf(),
        m.has_game(i),
    ensures
        !m.games[i].has_ended || m.vaults[i].balance > 0 ==> m.vaults[i].balance
            == m.vaults[i].deposit_amount * m.games[i].click_number,
        m.vaults[i].balance != m.vaults[i].deposit_amount * m.games[i].click_number
            ==> m.games[i].has_ended && m.vaults[i].balance == 0,
{
}

/// Once a claim has paid a round's pot out, every later claim on that round
/// fails and changes nothing; the winner's own second claim fails because the
/// pot is empty.
pub proof fn lemma_claim_pays_once(
    m: ProgramModel,
    game_id: u64,
    winner: Identity,
    later: Identity,
    t1: i64,
    t2: i64,
)
    requires
        m.wf(),
        m.has_game(game_id as int),
        claim_outcome(m, game_id, winner, t1).1 is Ok,
    ensures
        ({
            let paid = claim_outcome(m, game_id, winner, t1).0;
            let (after, r) = claim_outcome(paid, game_id, later, t2);
            &&& after == paid
            &&& r is Err
            &&& later == winner ==> r == Err::<u64, ClaimRewardError>(
                ClaimRewardError::NoRewardsInVault,
            )
        }),
{
    let paid = claim_outcome(m, game_id, winner, t1).0;
    let after = claim_outcome(paid, game_id, later, t2).0;
    assert(after.games =~= paid.games);
    assert(after.vaults =~= paid.vaults);
}

/// The timeout is inclusive: a stake that arrives exactly `game_time_sec`
/// seconds after the latest one finds the round closed, and is refused with
/// nothing changed but the round's closing.
pub proof fn lemma_timeout_is_inclusive(
    m: ProgramModel,
    game_id: u64,
    user: Identity,
    user_lamports: u64,
    amount: u64,
    now: i64,
)
    requires
        m.wf(),
        m.has_game(game_id as int),
        m.games[game_id as int].is_active,
        m.games[game_id as int].last_click_timestamp matches Some(t) && now - t
            == m.games[game_id as int].game_time_sec,
    ensures
        ({
            let (after, r) = click_outcome(m, game_id, user, user_lamports, amount, now);
            &&& r == Err::<(), ClickButtonError>(ClickButtonError::GameEnded)
            &&& after.games[game_id as int] == ended(m.games[game_id as int])
            &&& after.vaults == m.vaults
            &&& after.global matches Some(gs) && gs.active_game_id is None
        }),
{
    let after = click_outcome(m, game_id, user, user_lamports, amount, now).0;
    assert(after.vaults =~= m.vaults);
}

} // verus!
