use vstd::prelude::*;
use vstd::utf8::encode_utf8;

use crate::identity::Identity;
use crate::payout::house_fee;

verus! {

/// Percentage of the whole pool that the house keeps at settlement.
pub const FEE_RATE: u64 = 5;

/// Longest topic accepted, in bytes of its UTF-8 encoding.
pub const MAX_TOPIC_LEN: usize = 50;

/// One of the two outcomes a participant can back.
#[derive(Clone, Copy, Debug, PartialEq, Eq, Structural)]
pub enum Side {
    TeamA,
    TeamB,
}

/// Lifecycle of a game: `Open` until settled, `Settled` for good.
#[derive(Clone, Copy, Debug, PartialEq, Eq, Structural)]
pub enum GameStatus {
    Open,
    Settled,
}

/// Every way an operation of the escrow can be refused.
#[derive(Clone, Copy, Debug, PartialEq, Eq, Structural)]
pub enum GameError {
    /// The topic is longer than `MAX_TOPIC_LEN` bytes.
    TopicTooLong,
    /// The game is settled or its deadline has passed.
    MarketClosed,
    /// A stake of zero.
    ZeroStake,
    /// The participant already holds a bet in this game.
    DuplicateStake,
    /// The stake would take the pooled total past `u64::MAX`.
    PoolOverflow,
    /// The caller is not the game's authority, or not the bet's owner.
    NotAuthorized,
    /// The game was settled already.
    AlreadySettled,
    /// The game is not settled yet.
    NotSettled,
    /// The bet belongs to another game.
    WrongMarket,
    /// The bet's reward was paid already.
    AlreadyClaimed,
    /// The game is settled but carries no winner.
    NoWinnerDetermined,
    /// The bet backs the losing side.
    NotWinningSide,
    /// Nothing was staked on the winning side.
    NoWinningStake,
    /// The ledger refused the transfer; nothing was changed.
    TransferFailed,
}

/// What the ledger reports when a transfer could not be made.
#[derive(Clone, Copy, Debug, PartialEq, Eq, Structural)]
pub struct TransferFailed;

/// One side of a ledger transfer: the game's pooled balance or a wallet.
#[derive(Clone, Copy, Debug, PartialEq, Eq)]
pub enum Endpoint {
    Pool,
    Wallet(Identity),
}

/// A move of `amount` from `from` to `to` that the ledger is asked to make.
#[derive(Clone, Copy, Debug, PartialEq, Eq)]
pub struct Transfer {
    pub from: Endpoint,
    pub to: Endpoint,
    pub amount: u64,
}

/// A market: two pools, a deadline, and once settled its winner and fee.
#[derive(Clone, Debug, PartialEq, Eq)]
pub struct Game {
    /// Where the game's record is kept; bets refer back to it.
    pub key: Identity,
    /// The one identity allowed to settle.
    pub authority: Identity,
    pub topic: String,
    /// Staking is accepted strictly before this time.
    pub deadline: i64,
    pub total_pool_a: u64,
    pub total_pool_b: u64,
    /// Receives the house fee.
    pub fee_vault: Identity,
    pub status: GameStatus,
    pub winner: Option<Side>,
    /// The house fee, fixed at settlement; zero while open.
    pub fee: u64,
}

/// One participant's stake in one game.
#[derive(Clone, Copy, Debug, PartialEq, Eq)]
pub struct Bet {
    pub user: Identity,
    /// The key of the game the bet was placed in.
    pub game: Identity,
    pub amount: u64,
    pub side: Side,
    pub claimed: bool,
}

/// The house fee on a pool of `total`: `FEE_RATE` percent, rounded down.
pub open spec fn fee_for(total: int) -> int {
    total * FEE_RATE / 100
}

/// The winner chosen at settlement: the override when given, else the side
/// with the strictly larger pool, and `TeamB` on a tie.
pub open spec fn winner_for(pool_a: int, pool_b: int, winner_side: Option<Side>) -> Side {
    match winner_side {
        Some(side) => side,
        None => if pool_a > pool_b {
            Side::TeamA
        } else {
            Side::TeamB
        },
    }
}

/// A winning bet's share of the distributable pool, rounded down.
pub open spec fn reward_for(distributable: int, amount: int, winning_pool: int) -> int {
    distributable * amount / winning_pool
}

impl Game {
    pub open spec fn pool_of(self, side: Side) -> int {
        match side {
            Side::TeamA => self.total_pool_a as int,
            Side::TeamB => self.total_pool_b as int,
        }
    }

    pub open spec fn total(self) -> int {
        self.total_pool_a + self.total_pool_b
    }

    /// What the winners share: the whole pool less the fee.
    pub open spec fn distributable(self) -> int {
        self.total() - self.fee
    }

    /// What a winning bet is paid.
    pub open spec fn reward_of(self, bet: Bet) -> int {
        reward_for(self.distributable(), bet.amount as int, self.pool_of(bet.side))
    }

    /// The game's invariant: the pooled total fits in a `u64`; a winner and a
    /// fee exist exactly once settled; the topic is within bounds.
    pub open spec fn wf(self) -> bool {
        &&& self.total() <= u64::MAX
        &&& (self.status == GameStatus::Open) == (self.winner is None)
        &&& self.status == GameStatus::Open ==> self.fee == 0
        &&& self.status == GameStatus::Settled ==> self.fee == fee_for(self.total())
        &&& encode_utf8(self.topic@).len() <= MAX_TOPIC_LEN
    }

    /// The game after `amount` more was staked on `side`.
    pub open spec fn staked(self, side: Side, amount: u64) -> Game {
        match side {
            Side::TeamA => Game { total_pool_a: (self.total_pool_a + amount) as u64, ..self },
            Side::TeamB => Game { total_pool_b: (self.total_pool_b + amount) as u64, ..self },
        }
    }

    /// The game once settled with the given override.
    pub open spec fn settled(self, winner_side: Option<Side>) -> Game {
        Game {
            status: GameStatus::Settled,
            winner: Some(winner_for(self.total_pool_a as int, self.total_pool_b as int, winner_side)),
            fee: fee_for(self.total()) as u64,
            ..self
        }
    }
}

impl Game {
    /// Tests the game's invariant, for callers that Verus does not check.
    pub fn is_well_formed(&self) -> (r: bool)
        ensures
            r == self.wf(),
    {
        let topic_len = self.topic.as_str().as_bytes().len();
        assert(topic_len == encode_utf8(self.topic@).len());
        if self.total_pool_a > u64::MAX - self.total_pool_b || topic_len > MAX_TOPIC_LEN {
            return false;
        }
        match self.status {
            GameStatus::Open => self.winner.is_none() && self.fee == 0,
            GameStatus::Settled => {
                self.winner.is_some() && self.fee == house_fee(
                    self.total_pool_a + self.total_pool_b,
                )
            },
        }
    }
}

impl Bet {
    /// The bet once its reward was paid.
    pub open spec fn paid(self) -> Bet {
        Bet { claimed: true, ..self }
    }

    /// Whether the bet's amount lies within its side's pool in `game`, as it
    /// does for every bet that `game` accepted.
    pub fn within_pool(&self, game: &Game) -> (r: bool)
        ensures
            r == (self.amount <= game.pool_of(self.side)),
    {
        match self.side {
            Side::TeamA => self.amount <= game.total_pool_a,
            Side::TeamB => self.amount <= game.total_pool_b,
        }
    }
}

} // verus!
