use vstd::prelude::*;

use crate::choice::Choice;
use crate::commitment::{commit, digests_equal, spec_commit};
use crate::error::BPSError;
use crate::escrow::{Instruction, Vault};
use crate::game::{keys_equal, Game, GameState, Key, PlayerEntry, RevealRecord};
use crate::settings::{spec_authoritative, SettingsRegistry};

verus! {

/// Opens a game for `first_player` at stake `amount`, with their commitment.
/// The stake moves into the first player's escrow and the entry fee of the
/// authoritative settings goes to their authority. Refused for a zero stake,
/// without authoritative settings, or where the player cannot cover stake
/// and fee.
pub fn first_player_move(
    settings: &SettingsRegistry,
    first_player: Key,
    game_id: String,
    amount: u64,
    first_player_hash: [u8; 32],
    bump: u8,
    mint: Key,
    first_player_escrow: Key,
    token_balance: u64,
    lamport_balance: u64,
    now: i64,
) -> (r: Result<(Game, Vec<Instruction>), BPSError>)
    ensures
        amount == 0 ==> r == Err::<(Game, Vec<Instruction>), BPSError>(BPSError::InvalidAmount),
        amount > 0 && spec_authoritative(*settings) is None ==> r == Err::<
            (Game, Vec<Instruction>),
            BPSError,
        >(BPSError::InvalidSettingsState),
        amount > 0 && (spec_authoritative(*settings) matches Some(s) && (token_balance < amount
            || lamport_balance < s.player_fee_lamports)) ==> r == Err::<
            (Game, Vec<Instruction>),
            BPSError,
        >(BPSError::AmountExceedsBalance),
        r is Ok <==> amount > 0 && (spec_authoritative(*settings) matches Some(s) && token_balance
            >= amount && lamport_balance >= s.player_fee_lamports),
        r matches Ok((g, ops)) ==> g.wf() && g == (Game {
            bump,
            game_id,
            mint,
            amount_to_match: amount,
            created_at: now,
            first: PlayerEntry {
                player: first_player,
                hash: first_player_hash,
                escrow: first_player_escrow,
                reveal: None,
            },
            second: None,
            settlement: None,
            game_state: GameState::CreatedAndWaitingForStart,
        }) && ops@ == seq![
            Instruction::TokenTransfer { from: Vault::FirstPlayerWallet, to: Vault::FirstPlayerEscrow, amount },
            Instruction::FeePayment {
                payer: first_player,
                treasury: spec_authoritative(*settings)->Some_0.authority,
                lamports: spec_authoritative(*settings)->Some_0.player_fee_lamports,
            },
        ],
{
    if amount == 0 {
        return Err(BPSError::InvalidAmount);
    }
    let fee_settings = match settings.authoritative() {
        Some(s) => s,
        None => {
            return Err(BPSError::InvalidSettingsState);
        },
    };
    if token_balance < amount || lamport_balance < fee_settings.player_fee_lamports {
        return Err(BPSError::AmountExceedsBalance);
    }
    let game = Game::new(
        bump,
        game_id,
        mint,
        amount,
        now,
        first_player,
        first_player_hash,
        first_player_escrow,
    );
    let mut ops: Vec<Instruction> = Vec::new();
    ops.push(
        Instruction::TokenTransfer {
            from: Vault::FirstPlayerWallet,
            to: Vault::FirstPlayerEscrow,
            amount,
        },
    );
    ops.push(
        Instruction::FeePayment {
            payer: first_player,
            treasury: fee_settings.authority,
            lamports: fee_settings.player_fee_lamports,
        },
    );
    Ok((game, ops))
}

/// Joins a waiting game as its second player, with their commitment, and
/// starts it. The stake moves into the second player's escrow and the entry
/// fee goes to the authority of the authoritative settings.
pub fn second_player_move(
    game: &mut Game,
    settings: &SettingsRegistry,
    second_player: Key,
    second_player_hash: [u8; 32],
    second_player_escrow: Key,
    token_balance: u64,
    lamport_balance: u64,
) -> (r: Result<Vec<Instruction>, BPSError>)
    ensures
        old(game).game_state != GameState::CreatedAndWaitingForStart ==> r == Err::<
            Vec<Instruction>,
            BPSError,
        >(BPSError::InvalidGameState),
        old(game).game_state == GameState::CreatedAndWaitingForStart && second_player == old(
            game,
        ).first.player ==> r == Err::<Vec<Instruction>, BPSError>(BPSError::InvalidPlayer),
        old(game).game_state == GameState::CreatedAndWaitingForStart && second_player != old(
            game,
        ).first.player && spec_authoritative(*settings) is None ==> r == Err::<
            Vec<Instruction>,
            BPSError,
        >(BPSError::InvalidSettingsState),
        old(game).game_state == GameState::CreatedAndWaitingForStart && second_player != old(
            game,
        ).first.player && (spec_authoritative(*settings) matches Some(s) && (token_balance < old(
            game,
        ).amount_to_match || lamport_balance < s.player_fee_lamports)) ==> r == Err::<
            Vec<Instruction>,
            BPSError,
        >(BPSError::AmountExceedsBalance),
        r is Ok <==> old(game).game_state == GameState::CreatedAndWaitingForStart && second_player
            != old(game).first.player && (spec_authoritative(*settings) matches Some(s)
            && token_balance >= old(game).amount_to_match && lamport_balance
            >= s.player_fee_lamports),
        r is Err ==> *final(game) == *old(game),
        r matches Ok(ops) ==> *final(game) == (Game {
            second: Some(
                PlayerEntry {
                    player: second_player,
                    hash: second_player_hash,
                    escrow: second_player_escrow,
                    reveal: None,
                },
            ),
            game_state: GameState::StartedAndWaitingForReveal,
            ..*old(game)
        }) && ops@ == seq![
            Instruction::TokenTransfer {
                from: Vault::SecondPlayerWallet,
                to: Vault::SecondPlayerEscrow,
                amount: old(game).amount_to_match,
            },
            Instruction::FeePayment {
                payer: second_player,
                treasury: spec_authoritative(*settings)->Some_0.authority,
                lamports: spec_authoritative(*settings)->Some_0.player_fee_lamports,
            },
        ],
        old(game).wf() ==> final(game).wf(),
{
    if game.game_state != GameState::CreatedAndWaitingForStart {
        return Err(BPSError::InvalidGameState);
    }
    if keys_equal(&second_player, &game.first.player) {
        return Err(BPSError::InvalidPlayer);
    }
    let fee_settings = match settings.authoritative() {
        Some(s) => s,
        None => {
            return Err(BPSError::InvalidSettingsState);
        },
    };
    if token_balance < game.amount_to_match || lamport_balance < fee_settings.player_fee_lamports {
        return Err(BPSError::AmountExceedsBalance);
    }
    let mut ops: Vec<Instruction> = Vec::new();
    ops.push(
        Instruction::TokenTransfer {
            from: Vault::SecondPlayerWallet,
            to: Vault::SecondPlayerEscrow,
            amount: game.amount_to_match,
        },
    );
    ops.push(
        Instruction::FeePayment {
            payer: second_player,
            treasury: fee_settings.authority,
            lamports: fee_settings.player_fee_lamports,
        },
    );
    game.set_second_player(second_player, second_player_hash, second_player_escrow);
    Ok(ops)
}

/// What a reveal by `player` of `choice` at `now` does to game `g`, where
/// `computed` is the commitment recomputed from the revealed choice and
/// secret: the game with the reveal recorded, or the reason it is refused.
/// The checks come in this order: the game has started and is not over; the
/// caller is one of its players; that player has not revealed yet; the
/// recomputed commitment is the stored one.
pub open spec fn spec_reveal(
    g: Game,
    player: Key,
    choice: Choice,
    computed: Seq<u8>,
    now: i64,
) -> Result<Game, BPSError> {
    let record = RevealRecord { choice, revealed_at: now };
    if g.game_state != GameState::StartedAndWaitingForReveal {
        Err(BPSError::InvalidGameState)
    } else if player == g.first.player {
        if g.first.reveal is Some {
            Err(BPSError::PlayerAlreadyMoved)
        } else if computed != g.first.hash@ {
            Err(BPSError::InvalidHash)
        } else {
            Ok(Game { first: PlayerEntry { reveal: Some(record), ..g.first }, ..g })
        }
    } else if g.second is Some && player == g.second->Some_0.player {
        let s = g.second->Some_0;
        if s.reveal is Some {
            Err(BPSError::PlayerAlreadyMoved)
        } else if computed != s.hash@ {
            Err(BPSError::InvalidHash)
        } else {
            Ok(Game { second: Some(PlayerEntry { reveal: Some(record), ..s }), ..g })
        }
    } else {
        Err(BPSError::InvalidPlayer)
    }
}

/// Records the reveal of `choice` by `player` at `now`, given the commitment
/// `computed` recomputed from the revealed choice and secret.
pub fn reveal_with_digest(
    game: &mut Game,
    player: Key,
    choice: Choice,
    computed: &[u8; 32],
    now: i64,
) -> (r: Result<(), BPSError>)
    ensures
        match spec_reveal(*old(game), player, choice, computed@, now) {
            Ok(g) => r is Ok && *final(game) == g,
            Err(e) => r == Err::<(), BPSError>(e) && *final(game) == *old(game),
        },
        old(game).wf() ==> final(game).wf(),
{
    if game.game_state != GameState::StartedAndWaitingForReveal {
        return Err(BPSError::InvalidGameState);
    }
    if keys_equal(&player, &game.first.player) {
        if game.first.reveal.is_some() {
            return Err(BPSError::PlayerAlreadyMoved);
        }
        if !digests_equal(computed, &game.first.hash) {
            return Err(BPSError::InvalidHash);
        }
        game.set_first_player_choice(choice, now);
        return Ok(());
    }
    let (second_key, second_revealed, second_hash) = match &game.second {
        Some(s) => (s.player, s.reveal.is_some(), s.hash),
        None => {
            return Err(BPSError::InvalidPlayer);
        },
    };
    if !keys_equal(&player, &second_key) {
        return Err(BPSError::InvalidPlayer);
    }
    if second_revealed {
        return Err(BPSError::PlayerAlreadyMoved);
    }
    if !digests_equal(computed, &second_hash) {
        return Err(BPSError::InvalidHash);
    }
    game.set_second_player_choice(choice, now);
    Ok(())
}

/// Reveals `choice` and `salt` for `player` at `now`: the commitment is
/// recomputed from them and checked against the stored one.
pub fn reveal_choice(game: &mut Game, player: Key, choice: Choice, salt: &[u8; 32], now: i64) -> (r: Result<
    (),
    BPSError,
>)
    ensures
        match spec_reveal(*old(game), player, choice, spec_commit(choice, salt@), now) {
            Ok(g) => r is Ok && *final(game) == g,
            Err(e) => r == Err::<(), BPSError>(e) && *final(game) == *old(game),
        },
        old(game).wf() ==> final(game).wf(),
{
    let computed = commit(choice, salt);
    reveal_with_digest(game, player, choice, &computed, now)
}

/// Cancels a game that still waits for its second player: the first
/// player's stake goes back to them. Only the first player may cancel.
pub fn cancel_game(game: &Game, caller: Key) -> (r: Result<Vec<Instruction>, BPSError>)
    ensures
        game.game_state != GameState::CreatedAndWaitingForStart ==> r == Err::<
            Vec<Instruction>,
            BPSError,
        >(BPSError::InvalidGameState),
        game.game_state == GameState::CreatedAndWaitingForStart && caller != game.first.player
            ==> r == Err::<Vec<Instruction>, BPSError>(BPSError::InvalidPlayer),
        r is Ok <==> game.game_state == GameState::CreatedAndWaitingForStart && caller
            == game.first.player,
        r matches Ok(ops) ==> ops@ == seq![
            Instruction::TokenTransfer {
                from: Vault::FirstPlayerEscrow,
                to: Vault::FirstPlayerWallet,
                amount: game.amount_to_match,
            },
        ],
{
    if game.game_state != GameState::CreatedAndWaitingForStart {
        return Err(BPSError::InvalidGameState);
    }
    if !keys_equal(&caller, &game.first.player) {
        return Err(BPSError::InvalidPlayer);
    }
    let mut ops: Vec<Instruction> = Vec::new();
    ops.push(
        Instruction::TokenTransfer {
            from: Vault::FirstPlayerEscrow,
            to: Vault::FirstPlayerWallet,
            amount: game.amount_to_match,
        },
    );
    Ok(ops)
}

/// Whether a game is stuck for good: started, and neither player has
/// revealed, so that it can never be settled.
pub open spec fn is_stale(g: Game) -> bool {
    &&& g.game_state == GameState::StartedAndWaitingForReveal
    &&& g.first.reveal is None
    &&& g.second matches Some(s)
    &&& s.reveal is None
}

/// Unwinds a stale game: both stakes go back untouched to their players.
/// Only the operator may do so.
pub fn admin_unwind_stale_game(game: &Game, caller: Key, operator: Key) -> (r: Result<
    Vec<Instruction>,
    BPSError,
>)
    ensures
        caller != operator ==> r == Err::<Vec<Instruction>, BPSError>(BPSError::Unauthorized),
        caller == operator && !is_stale(*game) ==> r == Err::<Vec<Instruction>, BPSError>(
            BPSError::InvalidGameState,
        ),
        r is Ok <==> caller == operator && is_stale(*game),
        r matches Ok(ops) ==> ops@ == seq![
            Instruction::TokenTransfer {
                from: Vault::FirstPlayerEscrow,
                to: Vault::FirstPlayerWallet,
                amount: game.amount_to_match,
            },
            Instruction::TokenTransfer {
                from: Vault::SecondPlayerEscrow,
                to: Vault::SecondPlayerWallet,
                amount: game.amount_to_match,
            },
        ],
{
    if !keys_equal(&caller, &operator) {
        return Err(BPSError::Unauthorized);
    }
    if game.game_state != GameState::StartedAndWaitingForReveal || game.first.reveal.is_some() {
        return Err(BPSError::InvalidGameState);
    }
    match &game.second {
        Some(s) => {
            if s.reveal.is_some() {
                return Err(BPSError::InvalidGameState);
            }
        },
        None => {
            return Err(BPSError::InvalidGameState);
        },
    }
    let mut ops: Vec<Instruction> = Vec::new();
    ops.push(
        Instruction::TokenTransfer {
            from: Vault::FirstPlayerEscrow,
            to: Vault::FirstPlayerWallet,
            amount: game.amount_to_match,
        },
    );
    ops.push(
        Instruction::TokenTransfer {
            from: Vault::SecondPlayerEscrow,
            to: Vault::SecondPlayerWallet,
            amount: game.amount_to_match,
        },
    );
    Ok(ops)
}

} // verus!
