use vstd::prelude::*;
use vstd::utf8::encode_utf8;

use crate::identity::Identity;
use crate::model::{
    fee_for, Bet, Endpoint, Game, GameError, GameStatus, Side, Transfer, TransferFailed,
    MAX_TOPIC_LEN,
};
use crate::payout::{house_fee, pick_winner, reward};

verus! {

/// Opening a game: where its record lives, who may settle it, what it is
/// about, when staking ends, and who receives the fee (the authority when
/// none is named).
#[derive(Clone, Debug)]
pub struct InitializeGame {
    pub game: Identity,
    pub authority: Identity,
    pub topic: String,
    pub deadline: i64,
    pub fee_vault: Option<Identity>,
}

/// A stake of `amount` on `side` by `user`, made at time `now`.
#[derive(Clone, Copy, Debug)]
pub struct PlaceBet {
    pub user: Identity,
    pub side: Side,
    pub amount: u64,
    pub now: i64,
}

/// Settlement asked for by `authority`, with an optional chosen winner.
#[derive(Clone, Copy, Debug)]
pub struct SettleGame {
    pub authority: Identity,
    pub winner_side: Option<Side>,
}

/// A reward claimed by `user`.
#[derive(Clone, Copy, Debug)]
pub struct ClaimReward {
    pub user: Identity,
}

/// The game that `initialize_game` opens for a request.
pub open spec fn opened(ctx: InitializeGame) -> Game {
    Game {
        key: ctx.game,
        authority: ctx.authority,
        topic: ctx.topic,
        deadline: ctx.deadline,
        total_pool_a: 0,
        total_pool_b: 0,
        fee_vault: match ctx.fee_vault {
            Some(v) => v,
            None => ctx.authority,
        },
        status: GameStatus::Open,
        winner: None,
        fee: 0,
    }
}

/// Why a stake is refused, checked in this order; `None` when it is accepted.
pub open spec fn place_bet_rejection(game: Game, bet_exists: bool, ctx: PlaceBet) -> Option<
    GameError,
> {
    if game.status == GameStatus::Settled || ctx.now >= game.deadline {
        Some(GameError::MarketClosed)
    } else if ctx.amount == 0 {
        Some(GameError::ZeroStake)
    } else if bet_exists {
        Some(GameError::DuplicateStake)
    } else if game.total() + ctx.amount > u64::MAX {
        Some(GameError::PoolOverflow)
    } else {
        None
    }
}

/// The bet that an accepted stake creates.
pub open spec fn new_bet(game: Game, ctx: PlaceBet) -> Bet {
    Bet { user: ctx.user, game: game.key, amount: ctx.amount, side: ctx.side, claimed: false }
}

/// Why a settlement is refused, checked in this order; `None` when accepted.
pub open spec fn settle_rejection(game: Game, ctx: SettleGame) -> Option<GameError> {
    if ctx.authority@ != game.authority@ {
        Some(GameError::NotAuthorized)
    } else if game.status == GameStatus::Settled {
        Some(GameError::AlreadySettled)
    } else {
        None
    }
}

/// Why a claim is refused, checked in this order; `None` when it is paid.
pub open spec fn claim_rejection(game: Game, bet: Bet, ctx: ClaimReward) -> Option<GameError> {
    if bet.game@ != game.key@ {
        Some(GameError::WrongMarket)
    } else if bet.user@ != ctx.user@ {
        Some(GameError::NotAuthorized)
    } else if game.status == GameStatus::Open {
        Some(GameError::NotSettled)
    } else if bet.claimed {
        Some(GameError::AlreadyClaimed)
    } else if game.winner is None {
        Some(GameError::NoWinnerDetermined)
    } else if bet.side != game.winner->Some_0 {
        Some(GameError::NotWinningSide)
    } else if game.pool_of(bet.side) == 0 {
        Some(GameError::NoWinningStake)
    } else {
        None
    }
}

/// Opens a game with empty pools, or refuses a topic that is too long.
pub fn initialize_game(ctx: InitializeGame) -> (r: Result<Game, GameError>)
    ensures
        encode_utf8(ctx.topic@).len() > MAX_TOPIC_LEN ==> r == Err::<Game, GameError>(
            GameError::TopicTooLong,
        ),
        encode_utf8(ctx.topic@).len() <= MAX_TOPIC_LEN ==> r == Ok::<Game, GameError>(
            opened(ctx),
        ),
        r matches Ok(game) ==> game.wf(),
{
    let topic_len = ctx.topic.as_str().as_bytes().len();
    assert(topic_len == encode_utf8(ctx.topic@).len());
    if topic_len > MAX_TOPIC_LEN {
        return Err(GameError::TopicTooLong);
    }
    let fee_vault = match ctx.fee_vault {
        Some(v) => v,
        None => ctx.authority,
    };
    Ok(
        Game {
            key: ctx.game,
            authority: ctx.authority,
            topic: ctx.topic,
            deadline: ctx.deadline,
            total_pool_a: 0,
            total_pool_b: 0,
            fee_vault,
            status: GameStatus::Open,
            winner: None,
            fee: 0,
        },
    )
}

/// The ledger transfer a stake needs (the stake from the user's wallet into
/// the pool), or why the stake is refused. Changes nothing.
pub fn place_bet_transfer(game: &Game, bet_exists: bool, ctx: &PlaceBet) -> (r: Result<
    Transfer,
    GameError,
>)
    requires
        game.wf(),
    ensures
        r == match place_bet_rejection(*game, bet_exists, *ctx) {
            Some(e) => Err::<Transfer, GameError>(e),
            None => Ok(
                Transfer { from: Endpoint::Wallet(ctx.user), to: Endpoint::Pool, amount: ctx.amount },
            ),
        },
{
    if game.status == GameStatus::Settled || ctx.now >= game.deadline {
        return Err(GameError::MarketClosed);
    }
    if ctx.amount == 0 {
        return Err(GameError::ZeroStake);
    }
    if bet_exists {
        return Err(GameError::DuplicateStake);
    }
    if ctx.amount > u64::MAX - game.total_pool_a - game.total_pool_b {
        return Err(GameError::PoolOverflow);
    }
    Ok(Transfer { from: Endpoint::Wallet(ctx.user), to: Endpoint::Pool, amount: ctx.amount })
}

/// Records a stake once the ledger has reported on its transfer: on success
/// the stake joins its side's pool and the new bet is returned; on any
/// refusal, or a failed transfer, the game is left as it was.
pub fn place_bet(
    game: &mut Game,
    bet_exists: bool,
    ctx: &PlaceBet,
    transfer: Result<(), TransferFailed>,
) -> (r: Result<Bet, GameError>)
    requires
        old(game).wf(),
    ensures
        final(game).wf(),
        match place_bet_rejection(*old(game), bet_exists, *ctx) {
            Some(e) => r == Err::<Bet, GameError>(e) && *final(game) == *old(game),
            None => match transfer {
                Err(_) => r == Err::<Bet, GameError>(GameError::TransferFailed) && *final(game)
                    == *old(game),
                Ok(_) => r == Ok::<Bet, GameError>(new_bet(*old(game), *ctx)) && *final(game)
                    == old(game).staked(ctx.side, ctx.amount),
            },
        },
        old(game).status == GameStatus::Settled || ctx.now >= old(game).deadline ==> r
            == Err::<Bet, GameError>(GameError::MarketClosed) && *final(game) == *old(game),
{
    match place_bet_transfer(game, bet_exists, ctx) {
        Err(e) => {
            return Err(e);
        },
        Ok(_) => {},
    }
    if transfer.is_err() {
        return Err(GameError::TransferFailed);
    }
    match ctx.side {
        Side::TeamA => game.total_pool_a = game.total_pool_a + ctx.amount,
        Side::TeamB => game.total_pool_b = game.total_pool_b + ctx.amount,
    }
    Ok(Bet { user: ctx.user, game: game.key, amount: ctx.amount, side: ctx.side, claimed: false })
}

/// The ledger transfer a settlement needs (the fee from the pool to the fee
/// vault; none when the fee is zero), or why it is refused. Changes nothing.
pub fn settle_game_transfer(game: &Game, ctx: &SettleGame) -> (r: Result<
    Option<Transfer>,
    GameError,
>)
    requires
        game.wf(),
    ensures
        r == match settle_rejection(*game, *ctx) {
            Some(e) => Err::<Option<Transfer>, GameError>(e),
            None => Ok(
                if fee_for(game.total()) == 0 {
                    None
                } else {
                    Some(
                        Transfer {
                            from: Endpoint::Pool,
                            to: Endpoint::Wallet(game.fee_vault),
                            amount: fee_for(game.total()) as u64,
                        },
                    )
                },
            ),
        },
{
    if !ctx.authority.same_as(&game.authority) {
        return Err(GameError::NotAuthorized);
    }
    if game.status == GameStatus::Settled {
        return Err(GameError::AlreadySettled);
    }
    let fee = house_fee(game.total_pool_a + game.total_pool_b);
    if fee == 0 {
        Ok(None)
    } else {
        Ok(Some(Transfer { from: Endpoint::Pool, to: Endpoint::Wallet(game.fee_vault), amount: fee }))
    }
}

/// Settles a game once the ledger has reported on the fee transfer (whose
/// outcome is not read when the fee is zero): fixes the winner and the fee
/// and closes the game; on any refusal, or a failed transfer, the game is
/// left as it was.
pub fn settle_game(game: &mut Game, ctx: &SettleGame, transfer: Result<(), TransferFailed>) -> (r:
    Result<(), GameError>)
    requires
        old(game).wf(),
    ensures
        final(game).wf(),
        match settle_rejection(*old(game), *ctx) {
            Some(e) => r == Err::<(), GameError>(e) && *final(game) == *old(game),
            None => if fee_for(old(game).total()) > 0 && transfer is Err {
                r == Err::<(), GameError>(GameError::TransferFailed) && *final(game) == *old(game)
            } else {
                r == Ok::<(), GameError>(()) && *final(game) == old(game).settled(ctx.winner_side)
            },
        },
        ctx.authority@ == old(game).authority@ && old(game).status == GameStatus::Settled ==> r
            == Err::<(), GameError>(GameError::AlreadySettled) && *final(game) == *old(game),
        r is Ok ==> final(game).fee == fee_for(old(game).total_pool_a + old(game).total_pool_b),
        r is Ok && ctx.winner_side is None && old(game).total_pool_a == old(game).total_pool_b
            ==> final(game).winner == Some(Side::TeamB),
{
    let planned = settle_game_transfer(game, ctx);
    match planned {
        Err(e) => {
            return Err(e);
        },
        Ok(Some(_)) => {
            if transfer.is_err() {
                return Err(GameError::TransferFailed);
            }
        },
        Ok(None) => {},
    }
    let fee = house_fee(game.total_pool_a + game.total_pool_b);
    let winner = pick_winner(game.total_pool_a, game.total_pool_b, ctx.winner_side);
    game.winner = Some(winner);
    game.status = GameStatus::Settled;
    game.fee = fee;
    Ok(())
}

/// The ledger transfer a claim needs (the reward from the pool to the bet's
/// owner), or why the claim is refused. Changes nothing.
pub fn claim_reward_transfer(game: &Game, bet: &Bet, ctx: &ClaimReward) -> (r: Result<
    Transfer,
    GameError,
>)
    requires
        game.wf(),
        bet.amount <= game.pool_of(bet.side),
    ensures
        r == match claim_rejection(*game, *bet, *ctx) {
            Some(e) => Err::<Transfer, GameError>(e),
            None => Ok(
                Transfer {
                    from: Endpoint::Pool,
                    to: Endpoint::Wallet(bet.user),
                    amount: game.reward_of(*bet) as u64,
                },
            ),
        },
        claim_rejection(*game, *bet, *ctx) is None ==> game.reward_of(*bet) <= game.distributable(),
{
    if !bet.game.same_as(&game.key) {
        return Err(GameError::WrongMarket);
    }
    if !bet.user.same_as(&ctx.user) {
        return Err(GameError::NotAuthorized);
    }
    if game.status == GameStatus::Open {
        return Err(GameError::NotSettled);
    }
    if bet.claimed {
        return Err(GameError::AlreadyClaimed);
    }
    let winner = match game.winner {
        None => {
            return Err(GameError::NoWinnerDetermined);
        },
        Some(w) => w,
    };
    if bet.side != winner {
        return Err(GameError::NotWinningSide);
    }
    let winning_pool = match winner {
        Side::TeamA => game.total_pool_a,
        Side::TeamB => game.total_pool_b,
    };
    let distributable = game.total_pool_a + game.total_pool_b - game.fee;
    let amount = reward(distributable, bet.amount, winning_pool)?;
    Ok(Transfer { from: Endpoint::Pool, to: Endpoint::Wallet(bet.user), amount })
}

/// Pays a winning bet once the ledger has reported on the reward transfer:
/// on success the bet is marked claimed and the amount paid is returned; on
/// any refusal, or a failed transfer, the bet is left as it was.
pub fn claim_reward(
    game: &Game,
    bet: &mut Bet,
    ctx: &ClaimReward,
    transfer: Result<(), TransferFailed>,
) -> (r: Result<u64, GameError>)
    requires
        game.wf(),
        old(bet).amount <= game.pool_of(old(bet).side),
    ensures
        match claim_rejection(*game, *old(bet), *ctx) {
            Some(e) => r == Err::<u64, GameError>(e) && *final(bet) == *old(bet),
            None => match transfer {
                Err(_) => r == Err::<u64, GameError>(GameError::TransferFailed) && *final(bet)
                    == *old(bet),
                Ok(_) => r == Ok::<u64, GameError>(game.reward_of(*old(bet)) as u64) && *final(bet)
                    == old(bet).paid(),
            },
        },
        r matches Ok(paid) ==> paid <= game.distributable(),
{
    let planned = claim_reward_transfer(game, bet, ctx);
    let amount = match planned {
        Err(e) => {
            return Err(e);
        },
        Ok(t) => t.amount,
    };
    if transfer.is_err() {
        return Err(GameError::TransferFailed);
    }
    bet.claimed = true;
    Ok(amount)
}

} // verus!
