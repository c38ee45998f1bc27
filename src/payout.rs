use vstd::arithmetic::div_mod::{lemma_div_by_multiple, lemma_div_is_ordered};
use vstd::prelude::*;

use crate::model::{fee_for, reward_for, winner_for, GameError, Side, FEE_RATE};

verus! {

/// The house fee on a pooled total, computed without overflow.
pub fn house_fee(total: u64) -> (fee: u64)
    ensures
        fee == fee_for(total as int),
        fee <= total,
{
    let rate = FEE_RATE as u128;
    assert(rate == 5);
    let wide: u128 = (total as u128) * rate / 100;
    assert(wide <= total) by (nonlinear_arith)
        requires
            wide == (total as int) * 5 / 100,
            total >= 0,
    ;
    wide as u64
}

/// Picks the winning side: the override if there is one, otherwise the side
/// with the strictly larger pool, `TeamB` on a tie.
pub fn pick_winner(pool_a: u64, pool_b: u64, winner_side: Option<Side>) -> (side: Side)
    ensures
        side == winner_for(pool_a as int, pool_b as int, winner_side),
{
    match winner_side {
        Some(side) => side,
        None => if pool_a > pool_b {
            Side::TeamA
        } else {
            Side::TeamB
        },
    }
}

/// A winning stake's share: `distributable * amount / winning_pool`, rounded
/// down, through a 128-bit product. Refused when nothing backs the winner.
pub fn reward(distributable: u64, amount: u64, winning_pool: u64) -> (r: Result<u64, GameError>)
    requires
        amount <= winning_pool,
    ensures
        winning_pool == 0 ==> r == Err::<u64, GameError>(GameError::NoWinningStake),
        winning_pool > 0 ==> r == Ok::<u64, GameError>(
            reward_for(distributable as int, amount as int, winning_pool as int) as u64,
        ),
        winning_pool > 0 ==> reward_for(distributable as int, amount as int, winning_pool as int)
            <= distributable,
{
    if winning_pool == 0 {
        return Err(GameError::NoWinningStake);
    }
    let d = distributable as u128;
    let a = amount as u128;
    let w = winning_pool as u128;
    assert(d * a <= u64::MAX * u64::MAX) by (nonlinear_arith)
        requires
            d <= u64::MAX,
            a <= u64::MAX,
    ;
    let product: u128 = d * a;
    let share: u128 = product / w;
    proof {
        let (di, ai, wi) = (d as int, a as int, w as int);
        assert(di * ai <= di * wi) by (nonlinear_arith)
            requires
                0 <= di,
                ai <= wi,
        ;
        lemma_div_is_ordered(di * ai, di * wi, wi);
        lemma_div_by_multiple(di, wi);
    }
    Ok(share as u64)
}

} // verus!
