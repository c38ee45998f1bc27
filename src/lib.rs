//! Pari-mutuel wagering escrow: two sides, one pooled balance, a fixed house
//! fee taken once at settlement and proportional payouts to the winning side.

mod identity;
mod model;
mod payout;
mod engine;
mod laws;

pub use identity::Identity;
pub use model::{
    fee_for, reward_for, winner_for, Bet, Endpoint, Game, GameError, GameStatus, Side, Transfer,
    TransferFailed, FEE_RATE, MAX_TOPIC_LEN,
};
pub use payout::{house_fee, pick_winner, reward};
pub use engine::{
    claim_reward, claim_reward_transfer, initialize_game, place_bet, place_bet_transfer,
    settle_game, settle_game_transfer, ClaimReward, InitializeGame, PlaceBet, SettleGame,
};
pub use laws::{
    lemma_claim_once, lemma_conservation, lemma_no_stake_after_settle, lemma_settle_once,
    side_count, side_total, total_paid,
};
