use vstd::prelude::*;

use crate::identity::Identity;
use crate::state::{ButtonProgram, GlobalState};

verus! {

#[derive(Clone, Copy, Debug, PartialEq, Eq, Structural)]
pub enum InitializeError {
    AlreadyInitialized,
}

/// A fresh registry with `authority` as operator, round numbering from zero
/// and no active round.
pub fn initialize_global_state(authority: &Identity) -> (r: GlobalState)
    ensures
        r == (GlobalState { authority: *authority, next_game_id: 0, active_game_id: None }),
{
    GlobalState { authority: *authority, next_game_id: 0, active_game_id: None }
}

impl ButtonProgram {
    /// Sets up the program's registry, once.
    pub fn initialize_global_state(&mut self, authority: &Identity) -> (r: Result<(), InitializeError>)
        requires
            old(self)@.wf(),
        ensures
            final(self)@.wf(),
            final(self)@.games == old(self)@.games,
            final(self)@.vaults == old(self)@.vaults,
            old(self)@.global is Some ==> {
                &&& r == Err::<(), InitializeError>(InitializeError::AlreadyInitialized)
                &&& final(self)@.global == old(self)@.global
            },
            old(self)@.global is None ==> {
                &&& r is Ok
                &&& final(self)@.global == Some(
                    GlobalState { authority: *authority, next_game_id: 0, active_game_id: None },
                )
            },
    {
        if self.global_state.is_some() {
            return Err(InitializeError::AlreadyInitialized);
        }
        self.global_state = Some(initialize_global_state(authority));
        Ok(())
    }
}

} // verus!
