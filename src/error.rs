use vstd::prelude::*;

verus! {

/// Why an operation on a game or on the settings was refused. Every refusal
/// leaves the state exactly as it was.
#[derive(Clone, Copy, Debug, PartialEq, Eq, Structural)]
pub enum BPSError {
    /// The operation is illegal in the game's current lifecycle state.
    InvalidGameState,
    /// The player has already revealed.
    PlayerAlreadyMoved,
    /// The caller is not a player of the game, or the first player tried to
    /// join as the second.
    InvalidPlayer,
    /// The revealed choice and secret do not match the stored commitment.
    InvalidHash,
    /// The caller cannot cover the stake or the fee.
    AmountExceedsBalance,
    /// A game must be played for a positive stake.
    InvalidAmount,
    /// The caller is not allowed to change the settings.
    Unauthorized,
    /// The settings record is missing, already present, or of the wrong
    /// generation for the operation.
    InvalidSettingsState,
}

} // verus!
