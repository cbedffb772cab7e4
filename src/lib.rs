//! A last-clicker-wins round game: players pay a fixed stake to become the
//! leader of the single active round; once the timeout passes without a new
//! stake the round ends and the leader may withdraw the whole pot, once.
//!
//! Each instruction exists at two levels. The free functions act on the
//! records one instruction touches (the registry, one round and its pot), as
//! an on-chain handler loads them. The methods of [`ButtonProgram`] act on the
//! whole program state, whose invariant ([`ProgramModel::wf`]) they keep;
//! `laws` states what that invariant gives. Moving currency and reading the
//! clock are left to the caller: each instruction takes the time and returns
//! the amount to move.
pub mod claim_reward;
pub mod click_button;
pub mod create_new_game;
pub mod identity;
pub mod initialize_global_state;
pub mod laws;
pub mod state;
pub mod verify_game_state;

pub use claim_reward::{claim_reward, ClaimRewardError};
pub use click_button::{click_button, ClickButtonError};
pub use create_new_game::{create_new_game, CreateGameError};
pub use identity::Identity;
pub use initialize_global_state::{initialize_global_state, InitializeError};
pub use state::{ButtonProgram, GameState, GlobalState, ProgramModel, Vault};
pub use verify_game_state::{internal_verify_game_state, verify_game_state};
