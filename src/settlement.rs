use vstd::prelude::*;

use crate::choice::{beats, spec_beats};
use crate::error::BPSError;
use crate::escrow::{burned, withdrawn, Instruction, Vault};
use crate::game::{Game, GameState, Settlement};

verus! {

/// How a settled game ended.
#[derive(Clone, Copy, Debug, PartialEq, Eq, Structural)]
pub enum Outcome {
    FirstPlayerWins,
    SecondPlayerWins,
    Draw,
}

/// What the winner receives from each escrow: nine tenths of the stake,
/// rounded down.
pub open spec fn spec_amount_to_pay(stake: u64) -> int {
    (stake as int * 9) / 10
}

/// What is burned from each escrow when a game has a winner: one tenth of the
/// stake, rounded down.
pub open spec fn spec_amount_to_burn(stake: u64) -> int {
    stake as int / 10
}

/// Nine tenths of `stake`, rounded down.
pub fn amount_to_pay(stake: u64) -> (r: u64)
    ensures
        r == spec_amount_to_pay(stake),
{
    let s = stake as u128;
    assert((s * 9) / 10 <= s) by (nonlinear_arith);
    ((s * 9) / 10) as u64
}

/// One tenth of `stake`, rounded down.
pub fn amount_to_burn(stake: u64) -> (r: u64)
    ensures
        r == spec_amount_to_burn(stake),
{
    stake / 10
}

/// How a game settles at time `now` under forfeiture timeout `timeout`, or
/// `None` where it cannot be settled: it has not started or is already over,
/// or neither both reveals nor a forfeiture is there. A forfeiture decides
/// first; else the two revealed choices do.
pub open spec fn spec_settle_outcome(g: Game, now: i64, timeout: i64) -> Option<Outcome> {
    if g.game_state != GameState::StartedAndWaitingForReveal || g.second is None {
        None
    } else if g.spec_second_forfeits(now, timeout) {
        Some(Outcome::FirstPlayerWins)
    } else if g.spec_first_forfeits(now, timeout) {
        Some(Outcome::SecondPlayerWins)
    } else {
        match (g.first.reveal, g.second->Some_0.reveal) {
            (Some(a), Some(b)) => if spec_beats(a.choice, b.choice) {
                Some(Outcome::FirstPlayerWins)
            } else if spec_beats(b.choice, a.choice) {
                Some(Outcome::SecondPlayerWins)
            } else {
                Some(Outcome::Draw)
            },
            _ => None,
        }
    }
}

/// How the game settles now, or `None` where it cannot be settled.
pub fn settle_outcome(g: &Game, now: i64, time_for_penalization: i64) -> (r: Option<Outcome>)
    ensures
        r == spec_settle_outcome(*g, now, time_for_penalization),
{
    if g.game_state != GameState::StartedAndWaitingForReveal || g.second.is_none() {
        return None;
    }
    if g.did_second_player_forfeit(now, time_for_penalization) {
        return Some(Outcome::FirstPlayerWins);
    }
    if g.did_first_player_forfeit(now, time_for_penalization) {
        return Some(Outcome::SecondPlayerWins);
    }
    match (&g.first.reveal, &g.second) {
        (Some(a), Some(s)) => match &s.reveal {
            Some(b) => {
                if beats(a.choice, b.choice) {
                    Some(Outcome::FirstPlayerWins)
                } else if beats(b.choice, a.choice) {
                    Some(Outcome::SecondPlayerWins)
                } else {
                    Some(Outcome::Draw)
                }
            },
            None => None,
        },
        _ => None,
    }
}

/// The terminal state that an outcome leads to.
pub open spec fn terminal_state(o: Outcome) -> GameState {
    match o {
        Outcome::FirstPlayerWins => GameState::FirstPlayerWon,
        Outcome::SecondPlayerWins => GameState::SecondPlayerWon,
        Outcome::Draw => GameState::Draw,
    }
}

/// The fund movements of a settlement. A winner takes nine tenths of the stake
/// from each escrow and one tenth of each is burned, each rounded down on its
/// own; in a draw each player gets their stake back from their own escrow.
pub open spec fn settlement_instructions(o: Outcome, stake: u64) -> Seq<Instruction> {
    let pay = spec_amount_to_pay(stake) as u64;
    let burn = spec_amount_to_burn(stake) as u64;
    match o {
        Outcome::FirstPlayerWins => seq![
            Instruction::TokenTransfer { from: Vault::FirstPlayerEscrow, to: Vault::FirstPlayerWallet, amount: pay },
            Instruction::TokenTransfer { from: Vault::SecondPlayerEscrow, to: Vault::FirstPlayerWallet, amount: pay },
            Instruction::TokenBurn { from: Vault::FirstPlayerEscrow, amount: burn },
            Instruction::TokenBurn { from: Vault::SecondPlayerEscrow, amount: burn },
        ],
        Outcome::SecondPlayerWins => seq![
            Instruction::TokenTransfer { from: Vault::SecondPlayerEscrow, to: Vault::SecondPlayerWallet, amount: pay },
            Instruction::TokenTransfer { from: Vault::FirstPlayerEscrow, to: Vault::SecondPlayerWallet, amount: pay },
            Instruction::TokenBurn { from: Vault::FirstPlayerEscrow, amount: burn },
            Instruction::TokenBurn { from: Vault::SecondPlayerEscrow, amount: burn },
        ],
        Outcome::Draw => seq![
            Instruction::TokenTransfer { from: Vault::FirstPlayerEscrow, to: Vault::FirstPlayerWallet, amount: stake },
            Instruction::TokenTransfer { from: Vault::SecondPlayerEscrow, to: Vault::SecondPlayerWallet, amount: stake },
        ],
    }
}

/// The settlement record of a game that ends with outcome `o` at `now`: the
/// winner's total winnings and the total burned, or nothing moved for a draw.
pub open spec fn settlement_record(g: Game, o: Outcome, now: i64) -> Settlement {
    let pay = spec_amount_to_pay(g.amount_to_match);
    let burn = spec_amount_to_burn(g.amount_to_match);
    let first = g.first.player;
    let second = g.second->Some_0.player;
    match o {
        Outcome::FirstPlayerWins => Settlement {
            winner: Some(first),
            loser: Some(second),
            amount_won: (2 * pay) as u128,
            amount_burned: (2 * burn) as u128,
            settled_at: now,
        },
        Outcome::SecondPlayerWins => Settlement {
            winner: Some(second),
            loser: Some(first),
            amount_won: (2 * pay) as u128,
            amount_burned: (2 * burn) as u128,
            settled_at: now,
        },
        Outcome::Draw => Settlement {
            winner: None,
            loser: None,
            amount_won: 0,
            amount_burned: 0,
            settled_at: now,
        },
    }
}

/// The game after it settles with outcome `o` at `now`.
pub open spec fn settled_game(g: Game, o: Outcome, now: i64) -> Game {
    Game { game_state: terminal_state(o), settlement: Some(settlement_record(g, o, now)), ..g }
}

/// Settles a started game at time `now`: decides the outcome, moves the game
/// to its terminal state with a settlement record, and returns the fund
/// movements to carry out. A game that cannot be settled is refused with
/// `InvalidGameState` and left as it is.
pub fn claim(game: &mut Game, now: i64, time_for_penalization: i64) -> (r: Result<
    Vec<Instruction>,
    BPSError,
>)
    ensures
        r is Ok <==> spec_settle_outcome(*old(game), now, time_for_penalization) is Some,
        r matches Err(e) ==> e == BPSError::InvalidGameState && *final(game) == *old(game),
        r matches Ok(ops) ==> ops@ == settlement_instructions(
            spec_settle_outcome(*old(game), now, time_for_penalization)->Some_0,
            old(game).amount_to_match,
        ) && *final(game) == settled_game(
            *old(game),
            spec_settle_outcome(*old(game), now, time_for_penalization)->Some_0,
            now,
        ),
        old(game).wf() ==> final(game).wf(),
{
    let outcome = match settle_outcome(game, now, time_for_penalization) {
        Some(o) => o,
        None => {
            return Err(BPSError::InvalidGameState);
        },
    };
    let stake = game.amount_to_match;
    let pay = amount_to_pay(stake);
    let burn = amount_to_burn(stake);
    let first = game.first.player;
    let second = match &game.second {
        Some(s) => s.player,
        None => {
            return Err(BPSError::InvalidGameState);
        },
    };
    let mut ops: Vec<Instruction> = Vec::new();
    match outcome {
        Outcome::FirstPlayerWins => {
            ops.push(
                Instruction::TokenTransfer {
                    from: Vault::FirstPlayerEscrow,
                    to: Vault::FirstPlayerWallet,
                    amount: pay,
                },
            );
            ops.push(
                Instruction::TokenTransfer {
                    from: Vault::SecondPlayerEscrow,
                    to: Vault::FirstPlayerWallet,
                    amount: pay,
                },
            );
            ops.push(Instruction::TokenBurn { from: Vault::FirstPlayerEscrow, amount: burn });
            ops.push(Instruction::TokenBurn { from: Vault::SecondPlayerEscrow, amount: burn });
            game.game_state = GameState::FirstPlayerWon;
            game.set_claim_fields(
                Some(first),
                Some(second),
                (pay as u128) * 2,
                (burn as u128) * 2,
                now,
            );
        },
        Outcome::SecondPlayerWins => {
            ops.push(
                Instruction::TokenTransfer {
                    from: Vault::SecondPlayerEscrow,
                    to: Vault::SecondPlayerWallet,
                    amount: pay,
                },
            );
            ops.push(
                Instruction::TokenTransfer {
                    from: Vault::FirstPlayerEscrow,
                    to: Vault::SecondPlayerWallet,
                    amount: pay,
                },
            );
            ops.push(Instruction::TokenBurn { from: Vault::FirstPlayerEscrow, amount: burn });
            ops.push(Instruction::TokenBurn { from: Vault::SecondPlayerEscrow, amount: burn });
            game.game_state = GameState::SecondPlayerWon;
            game.set_claim_fields(
                Some(second),
                Some(first),
                (pay as u128) * 2,
                (burn as u128) * 2,
                now,
            );
        },
        Outcome::Draw => {
            ops.push(
                Instruction::TokenTransfer {
                    from: Vault::FirstPlayerEscrow,
                    to: Vault::FirstPlayerWallet,
                    amount: stake,
                },
            );
            ops.push(
                Instruction::TokenTransfer {
                    from: Vault::SecondPlayerEscrow,
                    to: Vault::SecondPlayerWallet,
                    amount: stake,
                },
            );
            game.game_state = GameState::Draw;
            game.set_claim_fields(None, None, 0, 0, now);
        },
    }
    assert(ops@ =~= settlement_instructions(outcome, stake));
    Ok(ops)
}

/// Settlement is deterministic: two games in the same lifecycle state whose
/// players revealed the same choices at the same times settle the same way
/// at the same time under the same timeout.
pub proof fn lemma_settlement_deterministic(g1: Game, g2: Game, now: i64, timeout: i64)
    requires
        g1.game_state == g2.game_state,
        g1.first.reveal == g2.first.reveal,
        g1.second is Some <==> g2.second is Some,
        g1.second is Some ==> g1.second->Some_0.reveal == g2.second->Some_0.reveal,
    ensures
        spec_settle_outcome(g1, now, timeout) == spec_settle_outcome(g2, now, timeout),
{
}

/// Payout conservation: from each escrow the payout and the burn together
/// take at most the stake and leave at most one unit behind; every
/// settlement takes from each escrow at least the stake less one and never
/// more than the stake, and a draw burns nothing.
pub proof fn lemma_payout_conservation(o: Outcome, stake: u64)
    ensures
        spec_amount_to_pay(stake) + spec_amount_to_burn(stake) <= stake,
        stake - (spec_amount_to_pay(stake) + spec_amount_to_burn(stake)) <= 1,
        stake - 1 <= withdrawn(settlement_instructions(o, stake), Vault::FirstPlayerEscrow) <= stake,
        stake - 1 <= withdrawn(settlement_instructions(o, stake), Vault::SecondPlayerEscrow) <= stake,
        withdrawn(settlement_instructions(o, stake), Vault::FirstPlayerWallet) == 0,
        withdrawn(settlement_instructions(o, stake), Vault::SecondPlayerWallet) == 0,
        o == Outcome::Draw ==> burned(settlement_instructions(o, stake)) == 0,
{
    let s = stake as int;
    let pay = spec_amount_to_pay(stake);
    let burn = spec_amount_to_burn(stake);
    assert(pay + burn <= s && s - (pay + burn) <= 1) by (nonlinear_arith)
        requires
            pay == (s * 9) / 10,
            burn == s / 10,
            0 <= s,
    ;
    let ops = settlement_instructions(o, stake);
    reveal_with_fuel(withdrawn, 5);
    reveal_with_fuel(burned, 3);
    if o == Outcome::Draw {
        assert(ops.drop_last().drop_last() =~= Seq::<Instruction>::empty());
    } else {
        assert(ops.drop_last().drop_last().drop_last().drop_last() =~= Seq::<Instruction>::empty());
    }
}

/// Forfeiture needs a reveal: while neither player has revealed, neither
/// forfeits and the game cannot be settled.
pub proof fn lemma_silent_players_never_forfeit(g: Game, now: i64, timeout: i64)
    requires
        g.first.reveal is None,
        g.second is None || g.second->Some_0.reveal is None,
    ensures
        !g.spec_first_forfeits(now, timeout),
        !g.spec_second_forfeits(now, timeout),
        spec_settle_outcome(g, now, timeout) is None,
{
}

} // verus!
