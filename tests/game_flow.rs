use bonk_paper_scissors::choice::Choice;
use bonk_paper_scissors::commitment::commit;
use bonk_paper_scissors::error::BPSError;
use bonk_paper_scissors::escrow::{Instruction, Vault};
use bonk_paper_scissors::game::{Game, GameState, Key};
use bonk_paper_scissors::instructions::{
    admin_unwind_stale_game, cancel_game, first_player_move, reveal_choice, reveal_with_digest,
    second_player_move,
};
use bonk_paper_scissors::settings::{init_bps_settings_v2, SettingsRegistry};
use bonk_paper_scissors::settlement::claim;

const FIRST: Key = [1u8; 32];
const SECOND: Key = [2u8; 32];
const OPERATOR: Key = [9u8; 32];
const STRANGER: Key = [4u8; 32];
const TIMEOUT: i64 = 604_800;
const FEE: u64 = 5_000;
const FIRST_SECRET: [u8; 32] = [11u8; 32];
const SECOND_SECRET: [u8; 32] = [22u8; 32];

fn registry() -> SettingsRegistry {
    let mut reg = SettingsRegistry::new();
    init_bps_settings_v2(&mut reg, OPERATOR, OPERATOR, 254, TIMEOUT, FEE).unwrap();
    reg
}

fn created(stake: u64, first_choice: Choice) -> Game {
    let reg = registry();
    let hash = commit(first_choice, &FIRST_SECRET);
    let (game, _) = first_player_move(
        &reg,
        FIRST,
        "g1".to_string(),
        stake,
        hash,
        255,
        [7u8; 32],
        [5u8; 32],
        stake,
        FEE,
        100,
    )
    .unwrap();
    game
}

fn started(stake: u64, first_choice: Choice, second_choice: Choice) -> Game {
    let reg = registry();
    let mut game = created(stake, first_choice);
    let hash = commit(second_choice, &SECOND_SECRET);
    second_player_move(&mut game, &reg, SECOND, hash, [6u8; 32], stake, FEE).unwrap();
    game
}

#[test]
fn first_player_move_locks_stake_and_pays_fee() {
    let reg = registry();
    let hash = commit(Choice::Bonk, &FIRST_SECRET);
    let (game, ops) = first_player_move(
        &reg,
        FIRST,
        "g1".to_string(),
        1000,
        hash,
        255,
        [7u8; 32],
        [5u8; 32],
        1000,
        FEE,
        100,
    )
    .unwrap();
    assert_eq!(game.game_state, GameState::CreatedAndWaitingForStart);
    assert_eq!(game.amount_to_match, 1000);
    assert_eq!(game.game_id, "g1");
    assert_eq!(game.created_at, 100);
    assert_eq!(game.first.hash, hash);
    assert!(game.second.is_none());
    assert_eq!(
        ops,
        vec![
            Instruction::TokenTransfer {
                from: Vault::FirstPlayerWallet,
                to: Vault::FirstPlayerEscrow,
                amount: 1000
            },
            Instruction::FeePayment { payer: FIRST, treasury: OPERATOR, lamports: FEE },
        ]
    );
}

#[test]
fn first_player_move_refusals() {
    let reg = registry();
    let hash = [0u8; 32];
    let r = first_player_move(&reg, FIRST, "g".to_string(), 0, hash, 1, FIRST, FIRST, 10, FEE, 0);
    assert_eq!(r.unwrap_err(), BPSError::InvalidAmount);
    let r = first_player_move(&reg, FIRST, "g".to_string(), 11, hash, 1, FIRST, FIRST, 10, FEE, 0);
    assert_eq!(r.unwrap_err(), BPSError::AmountExceedsBalance);
    let r =
        first_player_move(&reg, FIRST, "g".to_string(), 10, hash, 1, FIRST, FIRST, 10, FEE - 1, 0);
    assert_eq!(r.unwrap_err(), BPSError::AmountExceedsBalance);
    let empty = SettingsRegistry::new();
    let r = first_player_move(&empty, FIRST, "g".to_string(), 10, hash, 1, FIRST, FIRST, 10, FEE, 0);
    assert_eq!(r.unwrap_err(), BPSError::InvalidSettingsState);
}

#[test]
fn second_player_move_starts_game() {
    let reg = registry();
    let mut game = created(1000, Choice::Bonk);
    let hash = commit(Choice::Paper, &SECOND_SECRET);
    let ops = second_player_move(&mut game, &reg, SECOND, hash, [6u8; 32], 1000, FEE).unwrap();
    assert_eq!(game.game_state, GameState::StartedAndWaitingForReveal);
    let second = game.second.unwrap();
    assert_eq!(second.player, SECOND);
    assert_eq!(second.hash, hash);
    assert_eq!(second.escrow, [6u8; 32]);
    assert_eq!(
        ops,
        vec![
            Instruction::TokenTransfer {
                from: Vault::SecondPlayerWallet,
                to: Vault::SecondPlayerEscrow,
                amount: 1000
            },
            Instruction::FeePayment { payer: SECOND, treasury: OPERATOR, lamports: FEE },
        ]
    );
}

#[test]
fn second_player_move_refusals() {
    let reg = registry();
    let mut game = created(1000, Choice::Bonk);
    let hash = [0u8; 32];
    let before = game.clone();
    let r = second_player_move(&mut game, &reg, FIRST, hash, FIRST, 1000, FEE);
    assert_eq!(r.unwrap_err(), BPSError::InvalidPlayer);
    let r = second_player_move(&mut game, &reg, SECOND, hash, SECOND, 999, FEE);
    assert_eq!(r.unwrap_err(), BPSError::AmountExceedsBalance);
    assert!(game.second.is_none());
    assert_eq!(game.game_state, before.game_state);
    second_player_move(&mut game, &reg, SECOND, hash, SECOND, 1000, FEE).unwrap();
    let r = second_player_move(&mut game, &reg, STRANGER, hash, STRANGER, 1000, FEE);
    assert_eq!(r.unwrap_err(), BPSError::InvalidGameState);
    assert_eq!(game.second.unwrap().player, SECOND);
}

#[test]
fn first_wins_bonk_over_scissors() {
    let mut game = started(1000, Choice::Bonk, Choice::Scissors);
    reveal_choice(&mut game, FIRST, Choice::Bonk, &FIRST_SECRET, 200).unwrap();
    reveal_choice(&mut game, SECOND, Choice::Scissors, &SECOND_SECRET, 300).unwrap();
    let ops = claim(&mut game, 400, TIMEOUT).unwrap();
    assert_eq!(game.game_state, GameState::FirstPlayerWon);
    assert_eq!(
        ops,
        vec![
            Instruction::TokenTransfer {
                from: Vault::FirstPlayerEscrow,
                to: Vault::FirstPlayerWallet,
                amount: 900
            },
            Instruction::TokenTransfer {
                from: Vault::SecondPlayerEscrow,
                to: Vault::FirstPlayerWallet,
                amount: 900
            },
            Instruction::TokenBurn { from: Vault::FirstPlayerEscrow, amount: 100 },
            Instruction::TokenBurn { from: Vault::SecondPlayerEscrow, amount: 100 },
        ]
    );
    let record = game.settlement.unwrap();
    assert_eq!(record.winner, Some(FIRST));
    assert_eq!(record.loser, Some(SECOND));
    assert_eq!(record.amount_won, 1800);
    assert_eq!(record.amount_burned, 200);
    assert_eq!(record.settled_at, 400);
}

#[test]
fn second_wins_paper_over_bonk() {
    let mut game = started(1001, Choice::Bonk, Choice::Paper);
    reveal_choice(&mut game, FIRST, Choice::Bonk, &FIRST_SECRET, 200).unwrap();
    reveal_choice(&mut game, SECOND, Choice::Paper, &SECOND_SECRET, 300).unwrap();
    let ops = claim(&mut game, 400, TIMEOUT).unwrap();
    assert_eq!(game.game_state, GameState::SecondPlayerWon);
    assert_eq!(
        ops,
        vec![
            Instruction::TokenTransfer {
                from: Vault::SecondPlayerEscrow,
                to: Vault::SecondPlayerWallet,
                amount: 900
            },
            Instruction::TokenTransfer {
                from: Vault::FirstPlayerEscrow,
                to: Vault::SecondPlayerWallet,
                amount: 900
            },
            Instruction::TokenBurn { from: Vault::FirstPlayerEscrow, amount: 100 },
            Instruction::TokenBurn { from: Vault::SecondPlayerEscrow, amount: 100 },
        ]
    );
    let record = game.settlement.unwrap();
    assert_eq!(record.winner, Some(SECOND));
    assert_eq!(record.amount_won, 1800);
    assert_eq!(record.amount_burned, 200);
}

#[test]
fn paper_paper_is_a_draw() {
    let mut game = started(1000, Choice::Paper, Choice::Paper);
    reveal_choice(&mut game, FIRST, Choice::Paper, &FIRST_SECRET, 200).unwrap();
    reveal_choice(&mut game, SECOND, Choice::Paper, &SECOND_SECRET, 300).unwrap();
    let ops = claim(&mut game, 400, TIMEOUT).unwrap();
    assert_eq!(game.game_state, GameState::Draw);
    assert_eq!(
        ops,
        vec![
            Instruction::TokenTransfer {
                from: Vault::FirstPlayerEscrow,
                to: Vault::FirstPlayerWallet,
                amount: 1000
            },
            Instruction::TokenTransfer {
                from: Vault::SecondPlayerEscrow,
                to: Vault::SecondPlayerWallet,
                amount: 1000
            },
        ]
    );
    assert!(!ops.iter().any(|op| matches!(op, Instruction::TokenBurn { .. })));
    let record = game.settlement.unwrap();
    assert_eq!(record.winner, None);
    assert_eq!(record.amount_burned, 0);
}

#[test]
fn forfeiture_after_timeout_awards_revealer() {
    let t: i64 = 1_000;
    let mut early = started(1000, Choice::Scissors, Choice::Bonk);
    reveal_choice(&mut early, FIRST, Choice::Scissors, &FIRST_SECRET, t).unwrap();
    let mut late = early.clone();
    let mut at_deadline = early.clone();

    assert_eq!(claim(&mut early, t + TIMEOUT - 1, TIMEOUT).unwrap_err(), BPSError::InvalidGameState);
    assert_eq!(early.game_state, GameState::StartedAndWaitingForReveal);
    assert_eq!(claim(&mut at_deadline, t + TIMEOUT, TIMEOUT).unwrap_err(), BPSError::InvalidGameState);

    assert!(late.did_second_player_forfeit(t + TIMEOUT + 1, TIMEOUT));
    assert!(!late.did_first_player_forfeit(t + TIMEOUT + 1, TIMEOUT));
    let ops = claim(&mut late, t + TIMEOUT + 1, TIMEOUT).unwrap();
    assert_eq!(late.game_state, GameState::FirstPlayerWon);
    assert_eq!(ops.len(), 4);
    assert_eq!(late.settlement.unwrap().winner, Some(FIRST));
}

#[test]
fn second_reveal_refused_and_first_choice_kept() {
    let mut game = started(1000, Choice::Bonk, Choice::Scissors);
    reveal_choice(&mut game, SECOND, Choice::Scissors, &SECOND_SECRET, 300).unwrap();
    let r = reveal_choice(&mut game, SECOND, Choice::Scissors, &SECOND_SECRET, 301);
    assert_eq!(r.unwrap_err(), BPSError::PlayerAlreadyMoved);
    let record = game.second.unwrap().reveal.unwrap();
    assert_eq!(record.choice, Choice::Scissors);
    assert_eq!(record.revealed_at, 300);
}

#[test]
fn reveal_refusals() {
    let mut waiting = created(1000, Choice::Bonk);
    let r = reveal_choice(&mut waiting, FIRST, Choice::Bonk, &FIRST_SECRET, 1);
    assert_eq!(r.unwrap_err(), BPSError::InvalidGameState);

    let mut game = started(1000, Choice::Bonk, Choice::Scissors);
    let r = reveal_choice(&mut game, STRANGER, Choice::Bonk, &FIRST_SECRET, 1);
    assert_eq!(r.unwrap_err(), BPSError::InvalidPlayer);
    let r = reveal_choice(&mut game, FIRST, Choice::Paper, &FIRST_SECRET, 1);
    assert_eq!(r.unwrap_err(), BPSError::InvalidHash);
    let r = reveal_choice(&mut game, FIRST, Choice::Bonk, &SECOND_SECRET, 1);
    assert_eq!(r.unwrap_err(), BPSError::InvalidHash);
    assert!(game.first.reveal.is_none());
    let stored = game.first.hash;
    reveal_with_digest(&mut game, FIRST, Choice::Bonk, &stored, 2).unwrap();
    assert_eq!(game.first.reveal.unwrap().choice, Choice::Bonk);
}

#[test]
fn claim_refused_before_both_reveals_and_after_settlement() {
    let mut game = started(1000, Choice::Bonk, Choice::Scissors);
    assert_eq!(claim(&mut game, 10_000_000, TIMEOUT).unwrap_err(), BPSError::InvalidGameState);
    reveal_choice(&mut game, FIRST, Choice::Bonk, &FIRST_SECRET, 200).unwrap();
    assert_eq!(claim(&mut game, 300, TIMEOUT).unwrap_err(), BPSError::InvalidGameState);
    reveal_choice(&mut game, SECOND, Choice::Scissors, &SECOND_SECRET, 300).unwrap();
    claim(&mut game, 400, TIMEOUT).unwrap();
    assert_eq!(claim(&mut game, 500, TIMEOUT).unwrap_err(), BPSError::InvalidGameState);
    assert_eq!(game.settlement.unwrap().settled_at, 400);
}

#[test]
fn cancel_after_join_fails() {
    let game = started(1000, Choice::Bonk, Choice::Scissors);
    assert_eq!(cancel_game(&game, FIRST).unwrap_err(), BPSError::InvalidGameState);
}

#[test]
fn cancel_before_join_refunds_first_player() {
    let game = created(1000, Choice::Bonk);
    assert_eq!(cancel_game(&game, SECOND).unwrap_err(), BPSError::InvalidPlayer);
    assert_eq!(
        cancel_game(&game, FIRST).unwrap(),
        vec![Instruction::TokenTransfer {
            from: Vault::FirstPlayerEscrow,
            to: Vault::FirstPlayerWallet,
            amount: 1000
        }]
    );
}

#[test]
fn admin_unwind_returns_both_stakes_of_stale_game() {
    let game = started(1000, Choice::Bonk, Choice::Scissors);
    assert_eq!(admin_unwind_stale_game(&game, FIRST, OPERATOR).unwrap_err(), BPSError::Unauthorized);
    assert_eq!(
        admin_unwind_stale_game(&game, OPERATOR, OPERATOR).unwrap(),
        vec![
            Instruction::TokenTransfer {
                from: Vault::FirstPlayerEscrow,
                to: Vault::FirstPlayerWallet,
                amount: 1000
            },
            Instruction::TokenTransfer {
                from: Vault::SecondPlayerEscrow,
                to: Vault::SecondPlayerWallet,
                amount: 1000
            },
        ]
    );
    let mut revealed = game.clone();
    reveal_choice(&mut revealed, FIRST, Choice::Bonk, &FIRST_SECRET, 5).unwrap();
    assert_eq!(
        admin_unwind_stale_game(&revealed, OPERATOR, OPERATOR).unwrap_err(),
        BPSError::InvalidGameState
    );
    let waiting = created(1000, Choice::Bonk);
    assert_eq!(
        admin_unwind_stale_game(&waiting, OPERATOR, OPERATOR).unwrap_err(),
        BPSError::InvalidGameState
    );
}

#[test]
fn silent_players_never_forfeit() {
    let game = started(1000, Choice::Bonk, Choice::Scissors);
    assert!(!game.did_first_player_forfeit(i64::MAX, 0));
    assert!(!game.did_second_player_forfeit(i64::MAX, 0));
}

#[test]
fn forfeiture_arithmetic_does_not_overflow() {
    let mut game = started(1000, Choice::Bonk, Choice::Scissors);
    reveal_choice(&mut game, SECOND, Choice::Scissors, &SECOND_SECRET, i64::MIN).unwrap();
    assert!(game.did_first_player_forfeit(i64::MAX, i64::MAX - 1));
    assert!(!game.did_first_player_forfeit(-1, i64::MAX));
}

#[test]
fn storage_sizes() {
    assert_eq!(Game::size(), 660);
}
