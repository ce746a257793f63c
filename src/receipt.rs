use vstd::prelude::*;

use crate::game::Key;

verus! {

/// A standalone record of how a game ended.
#[derive(Clone, Debug)]
pub struct Receipt {
    pub game_id: String,
    pub game_key: Key,
    pub winner: Option<Key>,
    pub loser: Option<Key>,
    pub amount_won: u64,
    pub amount_burned: u64,
    pub drawn_at: i64,
}

/// Bytes that a receipt takes in account storage.
pub const RECEIPT_ACCOUNT_SIZE: usize = 166;

impl Receipt {
    /// Bytes that a receipt takes in account storage.
    pub fn size() -> (r: usize)
        ensures
            r == RECEIPT_ACCOUNT_SIZE,
    {
        8 + // discriminator
        4 + 32 + // game_id
        32 + // game_key
        1 + 32 + // winner
        1 + 32 + // loser
        8 + // amount_won
        8 + // amount_burned
        8 // drawn_at
    }

    pub fn new(
        game_id: String,
        game_key: Key,
        winner: Option<Key>,
        loser: Option<Key>,
        amount_won: u64,
        amount_burned: u64,
        drawn_at: i64,
    ) -> (r: Self)
        ensures
            r == (Receipt { game_id, game_key, winner, loser, amount_won, amount_burned, drawn_at }),
    {
        Receipt { game_id, game_key, winner, loser, amount_won, amount_burned, drawn_at }
    }
}

} // verus!
