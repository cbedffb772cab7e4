use solana_button::{
    claim_reward, click_button, create_new_game, initialize_global_state,
    internal_verify_game_state, verify_game_state, ButtonProgram, ClaimRewardError,
    ClickButtonError, CreateGameError, GameState, GlobalState, Identity, InitializeError, Vault,
};

fn id(b: u8) -> Identity {
    Identity::new([b; 32])
}

fn operator() -> Identity {
    id(1)
}

fn user_a() -> Identity {
    id(2)
}

fn user_b() -> Identity {
    id(3)
}

fn user_c() -> Identity {
    id(4)
}

fn stake(p: &mut ButtonProgram, who: Identity, amount: u64, now: i64) -> Result<(), ClickButtonError> {
    p.click_button(0, &who, 1_000, amount, now)
}

fn claim(p: &mut ButtonProgram, who: Identity, now: i64) -> Result<u64, ClaimRewardError> {
    p.claim_reward(0, &who, now)
}

/// Registry set up by the operator, with round 0 open at stake 100 and timeout 60.
fn opened() -> ButtonProgram {
    let mut p = ButtonProgram::new();
    p.initialize_global_state(&operator()).unwrap();
    let r = p.create_new_game(&operator(), 100, 60);
    assert_eq!(r, Ok(0));
    p
}

/// Round 0 after stakes by A at 10 and B at 30.
fn two_stakes() -> ButtonProgram {
    let mut p = opened();
    assert_eq!(stake(&mut p, user_a(), 100, 10), Ok(()));
    assert_eq!(stake(&mut p, user_b(), 100, 30), Ok(()));
    p
}

#[test]
fn create_first_round() {
    let p = opened();
    let vault = p.vault(0).unwrap();
    assert_eq!(vault.balance, 0);
    assert_eq!(vault.deposit_amount, 100);
    assert_eq!(vault.authority, operator());
    let game = p.game(0).unwrap();
    assert!(game.is_active);
    assert!(!game.has_ended);
    assert_eq!(game.last_clicker, None);
    assert_eq!(game.last_click_timestamp, None);
    assert_eq!(game.click_number, 0);
    assert_eq!(game.game_time_sec, 60);
    let gs = p.global_state().unwrap();
    assert_eq!(gs.active_game_id, Some(0));
    assert_eq!(gs.next_game_id, 1);
    assert_eq!(p.game_count(), 1);
}

#[test]
fn first_stake_then_same_leader_refused() {
    let mut p = opened();
    assert_eq!(stake(&mut p, user_a(), 100, 10), Ok(()));
    let game = p.game(0).unwrap();
    assert_eq!(game.last_clicker, Some(user_a()));
    assert_eq!(game.last_click_timestamp, Some(10));
    assert_eq!(game.click_number, 1);
    assert_eq!(p.vault(0).unwrap().balance, 100);
    assert_eq!(stake(&mut p, user_a(), 100, 20), Err(ClickButtonError::AlreadyLeader));
    assert_eq!(p.vault(0).unwrap().balance, 100);
    assert_eq!(p.game(0).unwrap().last_click_timestamp, Some(10));
}

#[test]
fn late_stake_finalizes_and_is_refused() {
    let mut p = two_stakes();
    let game = p.game(0).unwrap();
    assert_eq!(game.last_clicker, Some(user_b()));
    assert_eq!(p.vault(0).unwrap().balance, 200);
    assert_eq!(stake(&mut p, user_c(), 100, 95), Err(ClickButtonError::GameEnded));
    let game = p.game(0).unwrap();
    assert!(game.has_ended);
    assert!(!game.is_active);
    assert_eq!(game.last_clicker, Some(user_b()));
    assert_eq!(game.click_number, 2);
    assert_eq!(p.vault(0).unwrap().balance, 200);
    assert_eq!(p.global_state().unwrap().active_game_id, None);
}

#[test]
fn winner_claims_then_next_round_opens() {
    let mut p = two_stakes();
    assert_eq!(claim(&mut p, user_b(), 100), Ok(200));
    assert_eq!(p.vault(0).unwrap().balance, 0);
    assert_eq!(p.global_state().unwrap().active_game_id, None);
    let r = p.create_new_game(&operator(), 100, 60);
    assert_eq!(r, Ok(1));
    assert_eq!(p.global_state().unwrap().active_game_id, Some(1));
    assert_eq!(p.game(1).unwrap().game_id, 1);
}

#[test]
fn wrong_claimant_gets_nothing() {
    let mut p = two_stakes();
    assert_eq!(claim(&mut p, user_a(), 100), Err(ClaimRewardError::NotLastClicker));
    assert_eq!(p.vault(0).unwrap().balance, 200);
    assert!(p.game(0).unwrap().has_ended);
}

#[test]
fn stake_exactly_at_timeout_is_late() {
    let mut p = two_stakes();
    assert_eq!(stake(&mut p, user_a(), 100, 90), Err(ClickButtonError::GameEnded));
    assert!(p.game(0).unwrap().has_ended);
    assert_eq!(p.vault(0).unwrap().balance, 200);
}

#[test]
fn stake_one_second_before_timeout_is_accepted() {
    let mut p = two_stakes();
    assert_eq!(stake(&mut p, user_a(), 100, 89), Ok(()));
    assert_eq!(p.vault(0).unwrap().balance, 300);
    assert_eq!(p.game(0).unwrap().click_number, 3);
}

#[test]
fn second_claim_fails_and_changes_nothing() {
    let mut p = two_stakes();
    assert_eq!(claim(&mut p, user_b(), 100), Ok(200));
    let game = p.game(0).unwrap();
    let vault = p.vault(0).unwrap();
    let gs = p.global_state().unwrap();
    assert_eq!(claim(&mut p, user_b(), 500), Err(ClaimRewardError::NoRewardsInVault));
    assert_eq!(p.game(0).unwrap(), game);
    assert_eq!(p.vault(0).unwrap(), vault);
    assert_eq!(p.global_state().unwrap(), gs);
}

#[test]
fn claim_before_end_refused() {
    let mut p = two_stakes();
    assert_eq!(claim(&mut p, user_b(), 89), Err(ClaimRewardError::GameNotEnded));
    assert_eq!(p.vault(0).unwrap().balance, 200);
    assert!(p.game(0).unwrap().is_active);
}

#[test]
fn empty_pot_claim_refused() {
    let mut p = ButtonProgram::new();
    p.initialize_global_state(&operator()).unwrap();
    assert_eq!(p.create_new_game(&operator(), 0, 5), Ok(0));
    assert_eq!(stake(&mut p, user_a(), 0, 1), Ok(()));
    assert_eq!(claim(&mut p, user_a(), 6), Err(ClaimRewardError::NoRewardsInVault));
    assert!(p.game(0).unwrap().has_ended);
}

#[test]
fn round_without_stakes_never_times_out() {
    let mut p = opened();
    p.verify_game_state(0, 1_000_000);
    assert!(p.game(0).unwrap().is_active);
    assert_eq!(claim(&mut p, user_a(), 2_000_000), Err(ClaimRewardError::GameNotEnded));
    assert_eq!(p.global_state().unwrap().active_game_id, Some(0));
}

#[test]
fn verify_closes_a_due_round() {
    let mut p = two_stakes();
    p.verify_game_state(0, 89);
    assert!(p.game(0).unwrap().is_active);
    p.verify_game_state(0, 90);
    assert!(p.game(0).unwrap().has_ended);
    assert_eq!(p.global_state().unwrap().active_game_id, None);
    p.verify_game_state(0, 91);
    assert!(p.game(0).unwrap().has_ended);
}

#[test]
fn timeout_check_on_records() {
    let mut game = GameState {
        last_clicker: Some(user_a()),
        game_id: 4,
        click_number: 1,
        is_active: true,
        has_ended: false,
        last_click_timestamp: Some(i64::MIN),
        game_time_sec: 1,
    };
    let mut gs = GlobalState { authority: operator(), next_game_id: 5, active_game_id: Some(4) };
    internal_verify_game_state(&mut game, &mut gs, i64::MIN);
    assert!(game.is_active);
    assert_eq!(gs.active_game_id, Some(4));
    internal_verify_game_state(&mut game, &mut gs, i64::MAX);
    assert!(game.has_ended);
    assert!(!game.is_active);
    assert_eq!(gs.active_game_id, None);
    assert_eq!(gs.next_game_id, 5);
}

#[test]
fn clock_going_back_does_not_close() {
    let mut p = two_stakes();
    assert_eq!(stake(&mut p, user_a(), 100, -1_000), Ok(()));
    assert_eq!(p.game(0).unwrap().last_click_timestamp, Some(-1_000));
}

#[test]
fn wrong_amount_refused() {
    let mut p = opened();
    assert_eq!(stake(&mut p, user_a(), 99, 10), Err(ClickButtonError::IncorrectAmount));
    assert_eq!(p.vault(0).unwrap().balance, 0);
    assert_eq!(p.game(0).unwrap().last_clicker, None);
}

#[test]
fn poor_user_refused() {
    let mut p = opened();
    let r = p.click_button(0, &user_a(), 99, 100, 10);
    assert_eq!(r, Err(ClickButtonError::InsufficientFunds));
    assert_eq!(p.click_button(0, &user_a(), 100, 100, 10), Ok(()));
}

#[test]
fn only_operator_opens_rounds() {
    let mut p = ButtonProgram::new();
    let r = p.create_new_game(&operator(), 100, 60);
    assert_eq!(r, Err(CreateGameError::Unauthorized));
    p.initialize_global_state(&operator()).unwrap();
    let r = p.create_new_game(&user_a(), 100, 60);
    assert_eq!(r, Err(CreateGameError::Unauthorized));
    assert_eq!(p.game_count(), 0);
}

#[test]
fn one_round_at_a_time() {
    let mut p = opened();
    let r = p.create_new_game(&operator(), 100, 60);
    assert_eq!(r, Err(CreateGameError::RoundAlreadyActive));
    assert_eq!(p.game_count(), 1);
    assert_eq!(p.game(1), None);
    assert_eq!(p.vault(1), None);
}

#[test]
fn zero_timeout_refused() {
    let mut p = ButtonProgram::new();
    p.initialize_global_state(&operator()).unwrap();
    let r = p.create_new_game(&operator(), 100, 0);
    assert_eq!(r, Err(CreateGameError::InvalidDuration));
    let r = p.create_new_game(&operator(), 100, 1);
    assert_eq!(r, Ok(0));
}

#[test]
fn registry_set_up_once() {
    let mut p = ButtonProgram::new();
    assert_eq!(p.global_state(), None);
    let r = p.initialize_global_state(&operator());
    assert_eq!(r, Ok(()));
    let gs = p.global_state().unwrap();
    assert_eq!(gs.authority, operator());
    assert_eq!(gs.next_game_id, 0);
    assert_eq!(gs.active_game_id, None);
    let r = p.initialize_global_state(&user_a());
    assert_eq!(r, Err(InitializeError::AlreadyInitialized));
    assert_eq!(p.global_state().unwrap().authority, operator());
}

#[test]
fn identities_compare_by_every_byte() {
    let mut bytes = [7u8; 32];
    let a = Identity::new(bytes);
    bytes[31] = 8;
    let b = Identity::new(bytes);
    assert!(a.same_as(&a));
    assert!(!a.same_as(&b));
    assert!(!b.same_as(&a));
}

#[test]
fn round_on_its_own_records() {
    let mut gs = initialize_global_state(&operator());
    assert_eq!(gs, GlobalState { authority: operator(), next_game_id: 0, active_game_id: None });
    assert_eq!(create_new_game(&mut gs, &user_a(), 50, 10), Err(CreateGameError::Unauthorized));
    let (mut game, mut vault) = create_new_game(&mut gs, &operator(), 50, 10).unwrap();
    assert_eq!(gs.next_game_id, 1);
    assert_eq!(gs.active_game_id, Some(0));
    assert_eq!(vault, Vault { authority: operator(), balance: 0, deposit_amount: 50 });
    let r = click_button(&mut gs, &mut game, &mut vault, &user_a(), 50, 50, 100);
    assert_eq!(r, Ok(()));
    let r = click_button(&mut gs, &mut game, &mut vault, &user_b(), 50, 50, 105);
    assert_eq!(r, Ok(()));
    assert_eq!(vault.balance, 100);
    assert_eq!(game.click_number, 2);
    let r = claim_reward(&mut gs, &mut game, &mut vault, &user_b(), 114);
    assert_eq!(r, Err(ClaimRewardError::GameNotEnded));
    verify_game_state(&mut gs, &mut game, 115);
    assert!(game.has_ended);
    assert_eq!(gs.active_game_id, None);
    let r = claim_reward(&mut gs, &mut game, &mut vault, &user_b(), 115);
    assert_eq!(r, Ok(100));
    assert_eq!(vault.balance, 0);
    let r = claim_reward(&mut gs, &mut game, &mut vault, &user_b(), 116);
    assert_eq!(r, Err(ClaimRewardError::NoRewardsInVault));
}

#[test]
fn pot_is_stake_times_clicks() {
    let mut p = opened();
    let users = [user_a(), user_b(), user_c(), user_a(), user_b()];
    let mut now: i64 = 0;
    for u in users.iter() {
        now += 5;
        assert_eq!(p.click_button(0, u, 1_000, 100, now), Ok(()));
        let game = p.game(0).unwrap();
        let vault = p.vault(0).unwrap();
        assert_eq!(vault.balance, vault.deposit_amount * game.click_number);
    }
    assert_eq!(p.vault(0).unwrap().balance, 500);
}

#[test]
fn active_round_and_open_round_agree() {
    let mut p = two_stakes();
    assert_eq!(p.global_state().unwrap().active_game_id, Some(0));
    let g = p.game(0).unwrap();
    assert!(g.is_active && !g.has_ended);
    p.verify_game_state(0, 90);
    assert_eq!(p.global_state().unwrap().active_game_id, None);
    let g = p.game(0).unwrap();
    assert!(!g.is_active && g.has_ended);
}

#[test]
fn closed_but_not_ended_round_refuses_stakes() {
    let mut gs = GlobalState { authority: operator(), next_game_id: 1, active_game_id: None };
    let mut game = GameState {
        last_clicker: None,
        game_id: 0,
        click_number: 0,
        is_active: false,
        has_ended: false,
        last_click_timestamp: None,
        game_time_sec: 10,
    };
    let mut vault = Vault { authority: operator(), balance: 0, deposit_amount: 5 };
    let r = click_button(&mut gs, &mut game, &mut vault, &user_a(), 5, 5, 1);
    assert_eq!(r, Err(ClickButtonError::GameNotActive));
    assert_eq!(vault.balance, 0);
}
