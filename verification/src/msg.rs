//! The messages that a pool takes and the answers that it gives.

use crate::chain::Coin;
use crate::state::{Config, DrawState};
use vstd::prelude::*;

verus! {

/// What a pool is made from.
#[derive(Debug, Clone, PartialEq, Eq)]
pub struct InstantiateMsg {
    /// The symbol of the ticket token that is issued with the pool.
    pub ticket_token_symbol: String,
    /// The denomination that is staked and refunded.
    pub core_denom: String,
    /// The validator that receives every delegation.
    pub validator_address: String,
    /// The number of tickets for sale.
    pub total_tickets: u128,
    /// The price of one ticket, in smallest units of `core_denom`.
    pub ticket_price: u128,
    /// The most tickets that one holder may hold.
    pub max_tickets_per_user: u128,
}

/// A step of the two-step handover of the pool's ownership.
#[derive(Debug, Clone, PartialEq, Eq)]
pub enum OwnershipAction {
    /// The owner offers the ownership to `new_owner`.
    TransferOwnership { new_owner: String },
    /// The address that was offered the ownership takes it.
    AcceptOwnership,
    /// The owner gives the ownership up; the pool has no owner afterwards.
    RenounceOwnership,
}

/// The calls that change a pool.
#[derive(Debug, Clone, PartialEq, Eq)]
pub enum ExecuteMsg {
    /// Buy one or more tickets.
    BuyTicket { number_of_tickets: u128 },
    /// Name the winner and start to unstake (owner only).
    SelectWinnerAndUndelegate { winner_address: String },
    /// Pay the rewards to the winner (owner only).
    SendFundsToWinner {  },
    /// Burn tickets to get their price back.
    BurnTickets { number_of_tickets: u128 },
    /// Add to the bonus that the winner receives.
    AddBonusRewardToThePool { amount: u128 },
    /// Set the phase of the round by hand (owner only).
    UpdateDrawState { new_state: DrawState },
    /// Pay an amount of the base asset to a recipient (owner only).
    SendFunds { recipient: String, amount: u128 },
    /// Set the time at which the stake is back by hand (owner only).
    SetUndelegationTimestamp { timestamp: u64 },
    /// Hand the administration of the ticket token to another address (owner only).
    TransferTokenAdmin { new_admin: String },
    /// Hand the ownership of the pool over, or give it up.
    UpdateOwnership(OwnershipAction),
}

/// The questions that a pool answers.
#[derive(Debug, Clone, PartialEq, Eq)]
pub enum QueryMsg {
    /// The ticket-token balance of an account.
    Balance { account: String },
    /// The buyers by the pool's own count.
    GetParticipants {  },
    /// The winner, once named, and what is paid out.
    GetWinner {  },
    /// The phase of the round.
    GetCurrentState {  },
    /// How many tickets are sold and how many are left.
    GetNumberOfTicketsSold {  },
    /// The bonus that was added to the pool.
    GetBonusRewards {  },
    /// The staking rewards as they stand now.
    GetAccumulatedRewards {  },
    /// The staking rewards as they stood when the winner was named.
    GetAccumulatedRewardsAtUndelegation {  },
    /// The value locked in the pool.
    GetDraftTvl {  },
    /// The holders of the ticket token as the token facility lists them.
    GetTicketHolders {  },
    /// The tickets of one buyer by the pool's own count.
    GetUserNumberOfTickets { address: String },
    /// One buyer's chance of winning.
    GetUserWinChance { address: String },
    /// How many tickets are burned.
    GetTotalTicketsBurned {  },
    /// The refunds paid, to all holders or to one.
    GetClaims { address: Option<String> },
    /// What the pool has staked.
    GetDelegatedAmount {  },
    /// The pool's configuration.
    GetContractConfig {  },
}

#[derive(Debug, Clone, PartialEq, Eq)]
pub struct BalanceResponse {
    pub balance: u128,
}

#[derive(Debug, Clone, PartialEq, Eq)]
pub struct AccumulatedRewardsResponse {
    pub accumulated_rewards: u128,
}

#[derive(Debug, Clone, PartialEq, Eq)]
pub struct AccumulatedRewardsAtUndelegationResponse {
    pub accumulated_rewards: u128,
}

/// What a migration may change.
#[derive(Debug, Clone, PartialEq, Eq)]
pub struct MigrateMsg {
    pub new_validator_address: Option<String>,
}

#[derive(Debug, Clone, PartialEq, Eq)]
pub struct ParticipantsResponse {
    pub participants: Vec<ParticipantInfo>,
    pub total_participants: u64,
}

#[derive(Debug, Clone, PartialEq, Eq)]
pub struct ParticipantInfo {
    pub address: String,
    pub tickets: u128,
    /// The chance of winning, written as a percentage.
    pub win_chance: String,
}

#[derive(Debug, Clone, PartialEq, Eq)]
pub struct WinnerResponse {
    pub winner: Option<String>,
    pub rewards: u128,
}

#[derive(Debug, Clone, PartialEq, Eq)]
pub struct CurrentStateResponse {
    pub state: DrawState,
    pub undelegation_done_timestamp: Option<u64>,
}

#[derive(Debug, Clone, PartialEq, Eq)]
pub struct TicketsSoldResponse {
    pub total_tickets: u128,
    pub tickets_sold: u128,
    pub tickets_remaining: u128,
}

#[derive(Debug, Clone, PartialEq, Eq)]
pub struct BonusRewardsResponse {
    pub bonus_rewards: u128,
}

#[derive(Debug, Clone, PartialEq, Eq)]
pub struct DraftTvlResponse {
    pub tvl: u128,
    pub denom: String,
}

#[derive(Debug, Clone, PartialEq, Eq)]
pub struct TicketHoldersResponse {
    pub holders: Vec<ParticipantInfo>,
    pub total_holders: u64,
}

#[derive(Debug, Clone, PartialEq, Eq)]
pub struct UserTicketsResponse {
    pub address: String,
    pub tickets: u128,
}

#[derive(Debug, Clone, PartialEq, Eq)]
pub struct UserWinChanceResponse {
    pub address: String,
    pub tickets: u128,
    /// The chance of winning, written as a percentage.
    pub win_chance: String,
}

#[derive(Debug, Clone, PartialEq, Eq)]
pub struct TotalBurnedResponse {
    pub total_burned: u128,
}

#[derive(Debug, Clone, PartialEq, Eq)]
pub struct ClaimsResponse {
    pub claims: Vec<ClaimInfo>,
    pub total_claimed: u128,
}

#[derive(Debug, Clone, PartialEq, Eq)]
pub struct ClaimInfo {
    pub address: String,
    pub amount: u128,
}

#[derive(Debug, Clone, PartialEq, Eq)]
pub struct DelegatedAmountResponse {
    pub amount: Coin,
}

/// How the token facility is asked for one page of the holders of a token.
#[derive(Debug, Clone, PartialEq, Eq)]
pub struct PaginationParams {
    pub limit: Option<u64>,
    pub offset: Option<u64>,
    pub key: Option<String>,
    pub count_total: Option<bool>,
    pub reverse: Option<bool>,
}

/// One page of the holders of a token, as the token facility lists them.
#[derive(Debug, Clone, PartialEq, Eq)]
pub struct TokenHoldersResponse {
    pub holders: Vec<TokenHolder>,
    pub pagination: Option<PaginationResponse>,
}

/// An account and its balance of the ticket token, in smallest units.
#[derive(Debug, Clone, PartialEq, Eq)]
pub struct TokenHolder {
    pub address: String,
    pub balance: u128,
}

#[derive(Debug, Clone, PartialEq, Eq)]
pub struct PaginationResponse {
    pub next_key: Option<String>,
    pub total: Option<u64>,
}

/// The answer to a question, one kind for each question.
#[derive(Debug, Clone, PartialEq, Eq)]
pub enum QueryResponse {
    Balance(BalanceResponse),
    Participants(ParticipantsResponse),
    Winner(WinnerResponse),
    CurrentState(CurrentStateResponse),
    TicketsSold(TicketsSoldResponse),
    BonusRewards(BonusRewardsResponse),
    AccumulatedRewards(AccumulatedRewardsResponse),
    AccumulatedRewardsAtUndelegation(AccumulatedRewardsAtUndelegationResponse),
    DraftTvl(DraftTvlResponse),
    TicketHolders(TicketHoldersResponse),
    UserTickets(UserTicketsResponse),
    UserWinChance(UserWinChanceResponse),
    TotalBurned(TotalBurnedResponse),
    Claims(ClaimsResponse),
    DelegatedAmount(DelegatedAmountResponse),
    ContractConfig(Config),
}

} // verus!
