use vstd::prelude::*;

use crate::choice::Choice;
use crate::commitment::digests_equal;

verus! {

/// A public key: the identity of a player, an account or an authority.
pub type Key = [u8; 32];

/// Whether two keys are the same.
pub fn keys_equal(a: &Key, b: &Key) -> (r: bool)
    ensures
        r == (*a == *b),
{
    let r = digests_equal(a, b);
    assert(a@ == b@ ==> *a =~= *b);
    r
}

/// Where a game stands in its lifecycle.
#[derive(Clone, Copy, Debug, PartialEq, Eq, Structural)]
pub enum GameState {
    CreatedAndWaitingForStart,
    StartedAndWaitingForReveal,
    FirstPlayerWon,
    SecondPlayerWon,
    Draw,
}

impl GameState {
    pub open spec fn is_terminal(self) -> bool {
        self == GameState::FirstPlayerWon || self == GameState::SecondPlayerWon || self
            == GameState::Draw
    }
}

/// A revealed choice and the time at which it was revealed.
#[derive(Clone, Copy, Debug, PartialEq, Eq, Structural)]
pub struct RevealRecord {
    pub choice: Choice,
    pub revealed_at: i64,
}

/// One side of a game: who plays, what they committed to, where their stake
/// sits, and their reveal once it has happened.
#[derive(Clone, Copy, Debug, PartialEq, Eq)]
pub struct PlayerEntry {
    pub player: Key,
    pub hash: [u8; 32],
    pub escrow: Key,
    pub reveal: Option<RevealRecord>,
}

/// The record written when a game reaches a terminal state. A draw has no
/// winner or loser and moves no winnings.
#[derive(Clone, Copy, Debug, PartialEq, Eq)]
pub struct Settlement {
    pub winner: Option<Key>,
    pub loser: Option<Key>,
    pub amount_won: u128,
    pub amount_burned: u128,
    pub settled_at: i64,
}

/// One match between two players. The second player's side is present
/// exactly once they have joined.
#[derive(Clone, Debug)]
pub struct Game {
    pub bump: u8,
    pub game_id: String,
    pub mint: Key,
    pub amount_to_match: u64,
    pub created_at: i64,
    pub first: PlayerEntry,
    pub second: Option<PlayerEntry>,
    pub settlement: Option<Settlement>,
    pub game_state: GameState,
}

/// Bytes that a game takes in account storage.
pub const GAME_ACCOUNT_SIZE: usize = 660;

impl Game {
    /// The invariant of every game: a positive stake; the second side present
    /// exactly once the game has started; no reveal before the start; a
    /// settlement record exactly in a terminal state; two different players.
    pub open spec fn wf(&self) -> bool {
        &&& self.amount_to_match > 0
        &&& (self.second is None <==> self.game_state == GameState::CreatedAndWaitingForStart)
        &&& (self.game_state == GameState::CreatedAndWaitingForStart ==> self.first.reveal is None)
        &&& (self.settlement is Some <==> self.game_state.is_terminal())
        &&& (self.second matches Some(s) ==> s.player != self.first.player)
    }

    /// The first player forfeits when they have not revealed, the second
    /// player has, and more than `timeout` has passed since that reveal.
    pub open spec fn spec_first_forfeits(&self, now: i64, timeout: i64) -> bool {
        &&& self.first.reveal is None
        &&& self.second matches Some(s)
        &&& s.reveal matches Some(r)
        &&& now - r.revealed_at > timeout
    }

    /// The second player forfeits when they have not revealed, the first
    /// player has, and more than `timeout` has passed since that reveal.
    pub open spec fn spec_second_forfeits(&self, now: i64, timeout: i64) -> bool {
        &&& self.second matches Some(s)
        &&& s.reveal is None
        &&& self.first.reveal matches Some(r)
        &&& now - r.revealed_at > timeout
    }

    /// Bytes that a game takes in account storage.
    pub fn size() -> (r: usize)
        ensures
            r == GAME_ACCOUNT_SIZE,
    {
        8 + // discriminator
        1 + // bump
        (4 + 32) + // game_id
        32 + // mint
        8 + // amount_to_match
        32 + // first player
        32 + // first player's commitment
        32 + // first player's escrow
        (1 + 1 + 1) + // first player's choice
        (1 + 8) + // first player's reveal time
        (1 + 32) + // second player
        (1 + 32) + // second player's commitment
        (1 + 32) + // second player's escrow
        (1 + 1 + 1) + // second player's choice
        (1 + 8) + // second player's reveal time
        (1 + 32) + // winner
        (1 + 32) + // loser
        (1 + 8) + // amount won
        (1 + 8) + // amount burned
        (1 + 8) + // settlement time
        (1 + 1) + // game state
        8 + // created_at
        253 // padding
    }

    /// A game that waits for its second player.
    pub fn new(
        bump: u8,
        game_id: String,
        mint: Key,
        amount_to_match: u64,
        created_at: i64,
        first_player: Key,
        first_player_hash: [u8; 32],
        first_player_escrow_address: Key,
    ) -> (r: Game)
        ensures
            r == (Game {
                bump,
                game_id,
                mint,
                amount_to_match,
                created_at,
                first: PlayerEntry {
                    player: first_player,
                    hash: first_player_hash,
                    escrow: first_player_escrow_address,
                    reveal: None,
                },
                second: None,
                settlement: None,
                game_state: GameState::CreatedAndWaitingForStart,
            }),
            amount_to_match > 0 ==> r.wf(),
    {
        Game {
            bump,
            game_id,
            mint,
            amount_to_match,
            created_at,
            first: PlayerEntry {
                player: first_player,
                hash: first_player_hash,
                escrow: first_player_escrow_address,
                reveal: None,
            },
            second: None,
            settlement: None,
            game_state: GameState::CreatedAndWaitingForStart,
        }
    }

    /// Records the second player's side and starts the game.
    pub fn set_second_player(
        &mut self,
        second_player: Key,
        second_player_hash: [u8; 32],
        second_player_escrow_address: Key,
    )
        ensures
            *final(self) == (Game {
                second: Some(
                    PlayerEntry {
                        player: second_player,
                        hash: second_player_hash,
                        escrow: second_player_escrow_address,
                        reveal: None,
                    },
                ),
                game_state: GameState::StartedAndWaitingForReveal,
                ..*old(self)
            }),
            old(self).wf() && old(self).game_state == GameState::CreatedAndWaitingForStart
                && second_player != old(self).first.player ==> final(self).wf(),
    {
        self.second = Some(
            PlayerEntry {
                player: second_player,
                hash: second_player_hash,
                escrow: second_player_escrow_address,
                reveal: None,
            },
        );
        self.game_state = GameState::StartedAndWaitingForReveal;
    }

    /// Records the first player's reveal.
    pub fn set_first_player_choice(&mut self, choice: Choice, revealed_at: i64)
        ensures
            *final(self) == (Game {
                first: PlayerEntry {
                    reveal: Some(RevealRecord { choice, revealed_at }),
                    ..old(self).first
                },
                ..*old(self)
            }),
            old(self).wf() && old(self).game_state != GameState::CreatedAndWaitingForStart
                ==> final(self).wf(),
    {
        self.first.reveal = Some(RevealRecord { choice, revealed_at });
    }

    /// Records the second player's reveal; a game without a second player is
    /// left as it is.
    pub fn set_second_player_choice(&mut self, choice: Choice, revealed_at: i64)
        ensures
            *final(self) == (match old(self).second {
                Some(s) => Game {
                    second: Some(
                        PlayerEntry { reveal: Some(RevealRecord { choice, revealed_at }), ..s },
                    ),
                    ..*old(self)
                },
                None => *old(self),
            }),
            old(self).wf() ==> final(self).wf(),
    {
        match &mut self.second {
            Some(s) => {
                s.reveal = Some(RevealRecord { choice, revealed_at });
            },
            None => {},
        }
    }

    /// Whether the first player has forfeited at time `now`.
    pub fn did_first_player_forfeit(&self, now: i64, time_for_expiry: i64) -> (r: bool)
        ensures
            r == self.spec_first_forfeits(now, time_for_expiry),
    {
        if self.first.reveal.is_some() {
            return false;
        }
        match &self.second {
            Some(s) => match &s.reveal {
                Some(rev) => (now as i128) - (rev.revealed_at as i128) > time_for_expiry as i128,
                None => false,
            },
            None => false,
        }
    }

    /// Whether the second player has forfeited at time `now`.
    pub fn did_second_player_forfeit(&self, now: i64, time_for_expiry: i64) -> (r: bool)
        ensures
            r == self.spec_second_forfeits(now, time_for_expiry),
    {
        match &self.second {
            Some(s) => {
                if s.reveal.is_some() {
                    return false;
                }
                match &self.first.reveal {
                    Some(rev) => (now as i128) - (rev.revealed_at as i128) > time_for_expiry
                        as i128,
                    None => false,
                }
            },
            None => false,
        }
    }

    /// Writes the settlement record.
    pub fn set_claim_fields(
        &mut self,
        winner: Option<Key>,
        loser: Option<Key>,
        amount_won: u128,
        amount_burned: u128,
        drawn_at: i64,
    )
        ensures
            *final(self) == (Game {
                settlement: Some(
                    Settlement { winner, loser, amount_won, amount_burned, settled_at: drawn_at },
                ),
                ..*old(self)
            }),
    {
        self.settlement = Some(
            Settlement { winner, loser, amount_won, amount_burned, settled_at: drawn_at },
        );
    }
}

} // verus!
