use vstd::prelude::*;

use crate::identity::Identity;

verus! {

/// The registry: who may start rounds, the next round number, and the
/// active round if there is one.
#[derive(Clone, Copy, Debug, PartialEq, Eq)]
pub struct GlobalState {
    pub authority: Identity,
    pub next_game_id: u64,
    pub active_game_id: Option<u64>,
}

/// One round.
#[derive(Clone, Copy, Debug, PartialEq, Eq)]
pub struct GameState {
    /// The current leader; absent until the first stake.
    pub last_clicker: Option<Identity>,
    pub game_id: u64,
    /// Number of accepted stakes.
    pub click_number: u64,
    pub is_active: bool,
    pub has_ended: bool,
    /// Time of the latest accepted stake; absent until the first stake.
    pub last_click_timestamp: Option<i64>,
    /// Length of the timeout window, in seconds.
    pub game_time_sec: i64,
}

/// The pot of one round.
#[derive(Clone, Copy, Debug, PartialEq, Eq)]
pub struct Vault {
    /// The operator that created the round.
    pub authority: Identity,
    pub balance: u64,
    /// The stake that each accepted click must pay.
    pub deposit_amount: u64,
}

/// Whether the round's timeout has passed at `now`: it is still open, has
/// seen a stake, and at least `game_time_sec` seconds have gone by since.
pub open spec fn is_due(g: GameState, now: int) -> bool {
    &&& g.is_active
    &&& !g.has_ended
    &&& g.last_click_timestamp matches Some(t) && now - t >= g.game_time_sec
}

/// The round as it stands once closed.
pub open spec fn ended(g: GameState) -> GameState {
    GameState { is_active: false, has_ended: true, ..g }
}

/// The registry and a round after the round has been checked for its timeout
/// at `now`: closed, with the registry's active round cleared, if due;
/// unchanged otherwise.
pub open spec fn finalize_records(gs: GlobalState, g: GameState, now: int) -> (GlobalState, GameState) {
    if is_due(g, now) {
        (GlobalState { active_game_id: None, ..gs }, ended(g))
    } else {
        (gs, g)
    }
}

/// The whole program state in mathematical form.
pub struct ProgramModel {
    pub global: Option<GlobalState>,
    pub games: Seq<GameState>,
    pub vaults: Seq<Vault>,
}

impl ProgramModel {
    /// Round `id` exists.
    pub open spec fn has_game(self, id: int) -> bool {
        0 <= id < self.games.len()
    }

    /// The registry names an active round exactly when some round is open.
    pub open spec fn active_matches_open_round(self) -> bool {
        match self.global {
            Some(gs) => gs.active_game_id.is_some() == exists|i: int|
                #![trigger self.games[i]]
                0 <= i < self.games.len() && self.games[i].is_active && !self.games[i].has_ended,
            None => true,
        }
    }

    /// Every round is either open or ended, never both and never neither.
    pub open spec fn rounds_open_or_ended(self) -> bool {
        forall|i: int| #![trigger self.games[i]]
            0 <= i < self.games.len() ==> self.games[i].is_active != self.games[i].has_ended
    }

    /// Each pot holds one stake per accepted click, or has been paid out to
    /// zero after its round ended.
    pub open spec fn pots_balanced(self) -> bool {
        forall|i: int| #![trigger self.vaults[i]]
            0 <= i < self.vaults.len() ==> {
                ||| self.vaults[i].balance == self.vaults[i].deposit_amount
                    * self.games[i].click_number
                ||| self.games[i].has_ended && self.vaults[i].balance == 0
            }
    }

    /// The structural invariant: records are numbered by position, the
    /// registry counts them, and only the registry's active round is open.
    pub open spec fn records_consistent(self) -> bool {
        &&& self.games.len() == self.vaults.len()
        &&& match self.global {
            None => self.games.len() == 0,
            Some(gs) => {
                &&& gs.next_game_id == self.games.len()
                &&& forall|i: int| #![trigger self.games[i]]
                    0 <= i < self.games.len() ==> {
                        &&& self.games[i].game_id == i
                        &&& self.games[i].game_time_sec >= 1
                        &&& self.games[i].is_active ==> gs.active_game_id == Some(i as u64)
                    }
                &&& gs.active_game_id matches Some(a) ==> a < self.games.len()
                    && self.games[a as int].is_active
            }
        }
    }

    pub open spec fn wf(self) -> bool {
        &&& self.records_consistent()
        &&& self.active_matches_open_round()
        &&& self.rounds_open_or_ended()
        &&& self.pots_balanced()
    }

    /// The state after round `id` has been checked for its timeout at `now`.
    pub open spec fn finalized(self, id: int, now: int) -> ProgramModel {
        let (gs, g) = finalize_records(self.global.unwrap(), self.games[id], now);
        ProgramModel { global: Some(gs), games: self.games.update(id, g), vaults: self.vaults }
    }
}

/// The whole program state: the registry, once set up, and the rounds with
/// their pots, indexed by round number.
pub struct ButtonProgram {
    pub global_state: Option<GlobalState>,
    pub games: Vec<GameState>,
    pub vaults: Vec<Vault>,
}

impl View for ButtonProgram {
    type V = ProgramModel;

    open spec fn view(&self) -> ProgramModel {
        ProgramModel { global: self.global_state, games: self.games@, vaults: self.vaults@ }
    }
}

impl ButtonProgram {
    /// A program whose registry has not been set up yet.
    pub fn new() -> (r: ButtonProgram)
        ensures
            r@.global is None,
            r@.games.len() == 0,
            r@.vaults.len() == 0,
            r@.wf(),
    {
        ButtonProgram { global_state: None, games: Vec::new(), vaults: Vec::new() }
    }

    /// The position of round `game_id` in the record lists.
    pub(crate) fn index_of(&self, game_id: u64) -> (r: usize)
        requires
            self@.has_game(game_id as int),
        ensures
            r == game_id,
    {
        let n: usize = self.games.len();
        assert(game_id < n);
        game_id as usize
    }

    pub fn global_state(&self) -> (r: Option<GlobalState>)
        ensures
            r == self@.global,
    {
        self.global_state
    }

    pub fn game_count(&self) -> (r: u64)
        requires
            self@.wf(),
        ensures
            r == self@.games.len(),
    {
        match self.global_state {
            Some(gs) => gs.next_game_id,
            None => 0,
        }
    }

    pub fn game(&self, game_id: u64) -> (r: Option<GameState>)
        ensures
            r == (if game_id < self@.games.len() {
                Some(self@.games[game_id as int])
            } else {
                None
            }),
    {
        let n: usize = self.games.len();
        if (n as u64) > game_id {
            Some(self.games[game_id as usize])
        } else {
            None
        }
    }

    pub fn vault(&self, game_id: u64) -> (r: Option<Vault>)
        ensures
            r == (if game_id < self@.vaults.len() {
                Some(self@.vaults[game_id as int])
            } else {
                None
            }),
    {
        let n: usize = self.vaults.len();
        if (n as u64) > game_id {
            Some(self.vaults[game_id as usize])
        } else {
            None
        }
    }
}

} // verus!
