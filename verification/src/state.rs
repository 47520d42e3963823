//! The pool's state: its configuration, its counters and its two ledgers.

use crate::error::ContractError;
use crate::ledger::{lemma_amount_bounds, Ledger};
use vstd::prelude::*;

verus! {

/// The phases of a round, in the order in which a round passes them.
#[derive(Clone, Copy, Debug, PartialEq, Eq, Structural)]
pub enum DrawState {
    /// Tickets can be bought.
    TicketSalesOpen,
    /// All tickets are sold and rewards accumulate.
    TicketsSoldOutAccumulationInProgress,
    /// The winner is named and the stake is unbonding.
    WinnerSelectedUndelegationInProcess,
    /// The stake is back and tickets can be burned.
    UndelegationCompletedTokensCanBeBurned,
    /// Every ticket is burned.
    DrawFinished,
}

impl DrawState {
    /// The name of the phase.
    pub open spec fn name_text(self) -> Seq<char> {
        match self {
            DrawState::TicketSalesOpen => "TicketSalesOpen"@,
            DrawState::TicketsSoldOutAccumulationInProgress =>
                "TicketsSoldOutAccumulationInProgress"@,
            DrawState::WinnerSelectedUndelegationInProcess =>
                "WinnerSelectedUndelegationInProcess"@,
            DrawState::UndelegationCompletedTokensCanBeBurned =>
                "UndelegationCompletedTokensCanBeBurned"@,
            DrawState::DrawFinished => "DrawFinished"@,
        }
    }

    /// The name of the phase.
    pub fn name(&self) -> (r: &'static str)
        ensures
            r@ == self.name_text(),
    {
        match self {
            DrawState::TicketSalesOpen => "TicketSalesOpen",
            DrawState::TicketsSoldOutAccumulationInProgress =>
                "TicketsSoldOutAccumulationInProgress",
            DrawState::WinnerSelectedUndelegationInProcess =>
                "WinnerSelectedUndelegationInProcess",
            DrawState::UndelegationCompletedTokensCanBeBurned =>
                "UndelegationCompletedTokensCanBeBurned",
            DrawState::DrawFinished => "DrawFinished",
        }
    }
}

/// The configuration of a pool and the state of its round.
#[derive(Debug, Clone, PartialEq, Eq)]
pub struct Config {
    /// Who may make the privileged calls; `None` once ownership is renounced.
    pub owner: Option<String>,
    pub ticket_symbol: String,
    /// The denomination that is staked and refunded.
    pub core_denom: String,
    pub validator_address: String,
    pub total_tickets: u128,
    pub max_tickets_per_user: u128,
    /// The price of one ticket, in smallest units of `core_denom`.
    pub ticket_price: u128,
    pub draw_state: DrawState,
    pub winner: Option<String>,
    /// When the stake will be back, in seconds since the epoch.
    pub undelegation_done_timestamp: Option<u64>,
    /// The staking rewards as they stood when the winner was named.
    pub accumulated_rewards: u128,
    pub bonus_rewards: u128,
}

/// Everything that a pool keeps between calls.
#[derive(Debug, Clone, PartialEq, Eq)]
pub struct Pool {
    pub config: Config,
    /// The denomination of the ticket token.
    pub ticket_denom: String,
    /// The tickets that each buyer holds by the pool's own count.
    pub ticket_holders: Ledger,
    /// The refunds that each holder has received.
    pub claims: Ledger,
    pub total_tickets_sold: u128,
    pub total_tickets_burned: u128,
    /// The record of the rewards at the time the winner was named.
    pub accumulated_rewards_at_undelegation: Option<u128>,
    /// Whether the rewards have been paid to the winner.
    pub rewards_paid: bool,
    /// The address that has been offered the ownership.
    pub pending_owner: Option<String>,
}

impl Pool {
    /// Both ledgers are in order.
    pub open spec fn wf(&self) -> bool {
        self.ticket_holders.wf() && self.claims.wf()
    }

    /// The books agree: no more tickets are sold than there are, no more are
    /// burned than were sold, the holders hold what is sold and not burned,
    /// and the refunds paid are the price of the burned tickets.
    pub open spec fn balanced(&self) -> bool {
        &&& self.total_tickets_sold <= self.config.total_tickets
        &&& self.total_tickets_burned <= self.total_tickets_sold
        &&& self.ticket_holders.total() == self.total_tickets_sold - self.total_tickets_burned
        &&& self.claims.total() == self.total_tickets_burned * self.config.ticket_price
    }

    /// Whether the winner of the round is named: the round waits for its
    /// stake, burns tickets, or is finished.
    pub open spec fn winner_named(&self) -> bool {
        ||| self.config.draw_state == DrawState::WinnerSelectedUndelegationInProcess
        ||| self.config.draw_state == DrawState::UndelegationCompletedTokensCanBeBurned
        ||| self.config.draw_state == DrawState::DrawFinished
    }

    /// The phase agrees with what is written down: a winner and the rewards
    /// for the winner are written down in the phases in which the winner is
    /// named and in no other, before that there are no rewards and no
    /// deadline and nothing is paid out, and in a finished round every ticket
    /// sold is burned.
    pub open spec fn phase_agrees(&self) -> bool {
        &&& self.config.winner is Some <==> self.winner_named()
        &&& self.accumulated_rewards_at_undelegation is Some <==> self.winner_named()
        &&& !self.winner_named() ==> self.config.accumulated_rewards == 0
            && self.config.undelegation_done_timestamp is None && !self.rewards_paid
        &&& self.config.draw_state == DrawState::DrawFinished ==> self.total_tickets_burned
            == self.total_tickets_sold
    }

    /// Whether `sender` is the pool's owner.
    pub open spec fn is_owner(&self, sender: Seq<char>) -> bool {
        self.config.owner matches Some(owner) && owner@ == sender
    }
}

/// Sets both counters to zero.
pub fn initialize_storage(pool: &mut Pool)
    ensures
        *final(pool) == (Pool { total_tickets_sold: 0, total_tickets_burned: 0, ..*old(pool) }),
{
    pool.total_tickets_sold = 0;
    pool.total_tickets_burned = 0;
}

/// Adds `amount` to the count of tickets sold and returns the new count.
pub fn increment_tickets_sold(pool: &mut Pool, amount: u128) -> (r: Result<u128, ContractError>)
    ensures
        match r {
            Ok(sold) => {
                &&& sold == old(pool).total_tickets_sold + amount
                &&& *final(pool) == (Pool { total_tickets_sold: sold, ..*old(pool) })
            },
            Err(e) => {
                &&& e == ContractError::Overflow {  }
                &&& old(pool).total_tickets_sold + amount > u128::MAX
                &&& *final(pool) == *old(pool)
            },
        },
{
    match pool.total_tickets_sold.checked_add(amount) {
        Some(sold) => {
            pool.total_tickets_sold = sold;
            Ok(sold)
        },
        None => Err(ContractError::Overflow {  }),
    }
}

/// Adds `amount` to the count of tickets burned and returns the new count.
pub fn increment_tickets_burned(pool: &mut Pool, amount: u128) -> (r: Result<u128, ContractError>)
    ensures
        match r {
            Ok(burned) => {
                &&& burned == old(pool).total_tickets_burned + amount
                &&& *final(pool) == (Pool { total_tickets_burned: burned, ..*old(pool) })
            },
            Err(e) => {
                &&& e == ContractError::Overflow {  }
                &&& old(pool).total_tickets_burned + amount > u128::MAX
                &&& *final(pool) == *old(pool)
            },
        },
{
    match pool.total_tickets_burned.checked_add(amount) {
        Some(burned) => {
            pool.total_tickets_burned = burned;
            Ok(burned)
        },
        None => Err(ContractError::Overflow {  }),
    }
}

/// Whether `new` is `old` with the amount of `address` in its ticket ledger
/// set to `amount`, and nothing else changed.
pub open spec fn holder_set(old: Pool, new: Pool, address: Seq<char>, amount: u128) -> bool {
    &&& new.ticket_holders.wf()
    &&& new.ticket_holders@ == old.ticket_holders@.insert(address, amount)
    &&& new.ticket_holders.total() == old.ticket_holders.total() - old.ticket_holders.amount(
        address,
    ) + amount
    &&& new == (Pool { ticket_holders: new.ticket_holders, ..old })
}

/// Whether `new` is `old` with the amount of `address` in its claims ledger
/// set to `amount`, and nothing else changed.
pub open spec fn claim_set(old: Pool, new: Pool, address: Seq<char>, amount: u128) -> bool {
    &&& new.claims.wf()
    &&& new.claims@ == old.claims@.insert(address, amount)
    &&& new.claims.total() == old.claims.total() - old.claims.amount(address) + amount
    &&& new == (Pool { claims: new.claims, ..old })
}

/// Adds `amount` tickets to what `addr` holds and returns the new holding.
pub fn update_ticket_holder(pool: &mut Pool, addr: &str, amount: u128) -> (r: Result<
    u128,
    ContractError,
>)
    requires
        old(pool).wf(),
    ensures
        match r {
            Ok(held) => {
                &&& held == old(pool).ticket_holders.amount(addr@) + amount
                &&& holder_set(*old(pool), *final(pool), addr@, held)
            },
            Err(e) => {
                &&& e == ContractError::Overflow {  }
                &&& old(pool).ticket_holders.amount(addr@) + amount > u128::MAX
                &&& *final(pool) == *old(pool)
            },
        },
{
    let current = match pool.ticket_holders.get(addr) {
        Some(value) => value,
        None => 0,
    };
    match current.checked_add(amount) {
        Some(held) => {
            pool.ticket_holders.set(addr, held);
            Ok(held)
        },
        None => Err(ContractError::Overflow {  }),
    }
}

/// Takes `amount` tickets from what `addr` holds and returns what is left.
/// An address without an entry holds nothing to take from.
pub fn decrease_ticket_holder(pool: &mut Pool, addr: &str, amount: u128) -> (r: Result<
    u128,
    ContractError,
>)
    requires
        old(pool).wf(),
    ensures
        match r {
            Ok(left) => {
                &&& old(pool).ticket_holders@.contains_key(addr@)
                &&& left == old(pool).ticket_holders@[addr@] - amount
                &&& holder_set(*old(pool), *final(pool), addr@, left)
            },
            Err(e) => {
                &&& e == ContractError::NotEnoughTickets {
                    requested: amount,
                    available: old(pool).ticket_holders.amount(addr@),
                }
                &&& (!old(pool).ticket_holders@.contains_key(addr@) || old(pool).ticket_holders@[addr@]
                    < amount)
                &&& *final(pool) == *old(pool)
            },
        },
{
    match pool.ticket_holders.get(addr) {
        Some(value) => {
            if value < amount {
                return Err(ContractError::NotEnoughTickets { requested: amount, available: value });
            }
            let left: u128 = value - amount;
            pool.ticket_holders.set(addr, left);
            Ok(left)
        },
        None => Err(ContractError::NotEnoughTickets { requested: amount, available: 0 }),
    }
}

/// Adds `amount` to the refunds that `addr` has received and returns their sum.
pub fn update_claim(pool: &mut Pool, addr: &str, amount: u128) -> (r: Result<u128, ContractError>)
    requires
        old(pool).wf(),
    ensures
        match r {
            Ok(claimed) => {
                &&& claimed == old(pool).claims.amount(addr@) + amount
                &&& claim_set(*old(pool), *final(pool), addr@, claimed)
            },
            Err(e) => {
                &&& e == ContractError::Overflow {  }
                &&& old(pool).claims.amount(addr@) + amount > u128::MAX
                &&& *final(pool) == *old(pool)
            },
        },
{
    let current = match pool.claims.get(addr) {
        Some(value) => value,
        None => 0,
    };
    match current.checked_add(amount) {
        Some(claimed) => {
            pool.claims.set(addr, claimed);
            Ok(claimed)
        },
        None => Err(ContractError::Overflow {  }),
    }
}

/// The value locked in the pool: the price of all tickets sold.
pub fn get_draft_tvl(pool: &Pool) -> (r: Result<u128, ContractError>)
    ensures
        match r {
            Ok(tvl) => tvl == pool.total_tickets_sold * pool.config.ticket_price,
            Err(e) => {
                &&& e == ContractError::Overflow {  }
                &&& pool.total_tickets_sold * pool.config.ticket_price > u128::MAX
            },
        },
{
    match pool.total_tickets_sold.checked_mul(pool.config.ticket_price) {
        Some(tvl) => Ok(tvl),
        None => Err(ContractError::Overflow {  }),
    }
}

/// Whether the last ticket is sold.
pub fn should_close_ticket_sales(pool: &Pool) -> (r: bool)
    ensures
        r == (pool.total_tickets_sold == pool.config.total_tickets),
{
    pool.total_tickets_sold == pool.config.total_tickets
}

/// Whether every ticket sold is burned.
pub fn all_tickets_burned(pool: &Pool) -> (r: bool)
    ensures
        r == (pool.total_tickets_sold == pool.total_tickets_burned),
{
    pool.total_tickets_sold == pool.total_tickets_burned
}

/// In a pool whose books agree, no holder holds more than is sold and not
/// yet burned.
pub proof fn lemma_holding_bounded(pool: Pool, address: Seq<char>)
    requires
        pool.wf(),
        pool.balanced(),
    ensures
        pool.ticket_holders.amount(address) <= pool.total_tickets_sold - pool.total_tickets_burned,
{
    lemma_amount_bounds(pool.ticket_holders.listing(), address);
}

} // verus!
