use vstd::prelude::*;

use crate::game::Key;

verus! {

/// A token account that a game's instructions move funds between: each
/// player's escrow, held under the game's own authority, and each player's
/// own token account.
#[derive(Clone, Copy, Debug, PartialEq, Eq, Structural)]
pub enum Vault {
    FirstPlayerEscrow,
    SecondPlayerEscrow,
    FirstPlayerWallet,
    SecondPlayerWallet,
}

/// One fund movement that an operation asks the runtime to carry out, in the
/// order given.
#[derive(Clone, Copy, Debug, PartialEq, Eq)]
pub enum Instruction {
    /// Move `amount` tokens of the game's mint from one vault to another.
    TokenTransfer { from: Vault, to: Vault, amount: u64 },
    /// Destroy `amount` tokens held in a vault.
    TokenBurn { from: Vault, amount: u64 },
    /// Pay the entry fee, in lamports, from a player to the treasury.
    FeePayment { payer: Key, treasury: Key, lamports: u64 },
}

/// Tokens that a list of instructions takes out of vault `v`, by transfer or
/// by burn.
pub open spec fn withdrawn(ops: Seq<Instruction>, v: Vault) -> int
    decreases ops.len(),
{
    if ops.len() == 0 {
        0
    } else {
        let rest = withdrawn(ops.drop_last(), v);
        match ops.last() {
            Instruction::TokenTransfer { from, to: _, amount } => if from == v {
                rest + amount
            } else {
                rest
            },
            Instruction::TokenBurn { from, amount } => if from == v {
                rest + amount
            } else {
                rest
            },
            Instruction::FeePayment { .. } => rest,
        }
    }
}

/// Tokens that a list of instructions burns.
pub open spec fn burned(ops: Seq<Instruction>) -> int
    decreases ops.len(),
{
    if ops.len() == 0 {
        0
    } else {
        let rest = burned(ops.drop_last());
        match ops.last() {
            Instruction::TokenBurn { from: _, amount } => rest + amount,
            _ => rest,
        }
    }
}

} // verus!
