use vstd::arithmetic::div_mod::{lemma_fundamental_div_mod, lemma_mod_bound};
use vstd::prelude::*;

use crate::engine::{
    claim_rejection, place_bet_rejection, settle_rejection, ClaimReward, PlaceBet, SettleGame,
};
use crate::model::{fee_for, Bet, Game, GameError, GameStatus, Side};

verus! {

/// The sum of the amounts that `bets` stake on `side`.
pub open spec fn side_total(bets: Seq<Bet>, side: Side) -> int
    decreases bets.len(),
{
    if bets.len() == 0 {
        0
    } else {
        side_total(bets.drop_last(), side) + if bets.last().side == side {
            bets.last().amount as int
        } else {
            0
        }
    }
}

/// How many of `bets` back `side`.
pub open spec fn side_count(bets: Seq<Bet>, side: Side) -> int
    decreases bets.len(),
{
    if bets.len() == 0 {
        0
    } else {
        side_count(bets.drop_last(), side) + if bets.last().side == side {
            1int
        } else {
            0
        }
    }
}

/// What claiming every bet of `bets` pays out of a settled game: the reward
/// of each bet on the winning side, and nothing at all when the winning pool
/// is empty.
pub open spec fn total_paid(game: Game, bets: Seq<Bet>) -> int
    decreases bets.len(),
{
    if bets.len() == 0 {
        0
    } else {
        total_paid(game, bets.drop_last()) + if game.winner == Some(bets.last().side)
            && game.pool_of(bets.last().side) > 0 {
            game.reward_of(bets.last())
        } else {
            0
        }
    }
}

proof fn lemma_rounding_dust(game: Game, bets: Seq<Bet>, side: Side)
    requires
        game.winner == Some(side),
        game.pool_of(side) > 0,
        game.distributable() >= 0,
    ensures
        game.pool_of(side) * total_paid(game, bets) <= game.distributable() * side_total(
            bets,
            side,
        ),
        game.distributable() * side_total(bets, side) - game.pool_of(side) * total_paid(game, bets)
            <= side_count(bets, side) * (game.pool_of(side) - 1),
    decreases bets.len(),
{
    if bets.len() > 0 {
        let rest = bets.drop_last();
        lemma_rounding_dust(game, rest, side);
        let w = game.pool_of(side);
        let d = game.distributable();
        let s = side_total(rest, side);
        let p = total_paid(game, rest);
        let n = side_count(rest, side);
        let b = bets.last();
        if b.side == side {
            let a = b.amount as int;
            let x = d * a;
            let q = game.reward_of(b);
            assert(q == x / w);
            lemma_fundamental_div_mod(x, w);
            lemma_mod_bound(x, w);
            assert(w * (p + q) == w * p + w * q) by (nonlinear_arith);
            assert(d * (s + a) == d * s + x) by (nonlinear_arith)
                requires
                    x == d * a,
            ;
            assert((n + 1) * (w - 1) == n * (w - 1) + (w - 1)) by (nonlinear_arith);
        }
    }
}

proof fn lemma_side_count_positive(bets: Seq<Bet>, side: Side)
    requires
        side_total(bets, side) > 0,
    ensures
        side_count(bets, side) > 0,
    decreases bets.len(),
{
    if bets.len() > 0 {
        if side_total(bets.drop_last(), side) > 0 {
            lemma_side_count_positive(bets.drop_last(), side);
        } else {
            lemma_side_count_nonneg(bets.drop_last(), side);
        }
    }
}

proof fn lemma_side_count_nonneg(bets: Seq<Bet>, side: Side)
    ensures
        side_count(bets, side) >= 0,
    decreases bets.len(),
{
    if bets.len() > 0 {
        lemma_side_count_nonneg(bets.drop_last(), side);
    }
}

/// Conservation: when the pools of a settled game are exactly what `bets`
/// staked, claiming every bet pays out, together with the fee, no more than
/// was staked; and when the winning side holds any stake, what stays behind
/// (the rounding dust) is less than the number of winning bets.
pub proof fn lemma_conservation(game: Game, bets: Seq<Bet>)
    requires
        game.wf(),
        game.status == GameStatus::Settled,
        game.total_pool_a == side_total(bets, Side::TeamA),
        game.total_pool_b == side_total(bets, Side::TeamB),
    ensures
        total_paid(game, bets) + game.fee <= game.total(),
        game.pool_of(game.winner->Some_0) > 0 ==> game.total() - game.fee - total_paid(game, bets)
            < side_count(bets, game.winner->Some_0),
{
    let side = game.winner->Some_0;
    let w = game.pool_of(side);
    let d = game.distributable();
    assert(fee_for(game.total()) <= game.total());
    if w > 0 {
        lemma_rounding_dust(game, bets, side);
        lemma_side_count_positive(bets, side);
        let p = total_paid(game, bets);
        let n = side_count(bets, side);
        assert(side_total(bets, side) == w);
        assert(p <= d) by (nonlinear_arith)
            requires
                w * p <= d * w,
                w > 0,
        ;
        assert(d - p < n) by (nonlinear_arith)
            requires
                d * w - w * p <= n * (w - 1),
                w > 0,
                n > 0,
        ;
    } else {
        lemma_total_paid_zero(game, bets);
    }
}

proof fn lemma_total_paid_zero(game: Game, bets: Seq<Bet>)
    requires
        game.pool_of(game.winner->Some_0) == 0,
        game.winner is Some,
    ensures
        total_paid(game, bets) == 0,
    decreases bets.len(),
{
    if bets.len() > 0 {
        lemma_total_paid_zero(game, bets.drop_last());
    }
}

/// A bet is paid at most once: after a claim on it has gone through, every
/// later claim on it is refused, and its owner is told it was claimed.
pub proof fn lemma_claim_once(game: Game, bet: Bet, first: ClaimReward, later: ClaimReward)
    requires
        claim_rejection(game, bet, first) is None,
    ensures
        claim_rejection(game, bet.paid(), later) is Some,
        later.user@ == bet.user@ ==> claim_rejection(game, bet.paid(), later) == Some(
            GameError::AlreadyClaimed,
        ),
{
}

/// Once a game is settled, every stake is refused because the market is
/// closed.
pub proof fn lemma_no_stake_after_settle(
    game: Game,
    settle: SettleGame,
    bet_exists: bool,
    stake: PlaceBet,
)
    ensures
        place_bet_rejection(game.settled(settle.winner_side), bet_exists, stake) == Some(
            GameError::MarketClosed,
        ),
{
}

/// A game is settled at most once: after a settlement has gone through, every
/// later one is refused, and its authority is told the game is settled.
pub proof fn lemma_settle_once(game: Game, first: SettleGame, later: SettleGame)
    requires
        settle_rejection(game, first) is None,
    ensures
        settle_rejection(game.settled(first.winner_side), later) is Some,
        later.authority@ == game.authority@ ==> settle_rejection(
            game.settled(first.winner_side),
            later,
        ) == Some(GameError::AlreadySettled),
{
}

} // verus!
