//! The calls that a pool handles: what each one checks, how it changes the
//! pool, and which messages it sends out.

use crate::chain::{
    a_reading, attributes_view, find_amount, first_amount, lemma_a_reading, push_attribute,
    push_number, read_as, reported, room, staked, Attribute, Coin, DecCoin, Env, Facilities,
    Feature, MessageInfo, OutboundMsg, Response, TICKET_PRECISION, TICKET_UNIT,
    UNDELEGATION_PERIOD_SECONDS,
};
use crate::error::ContractError;
use crate::ledger::Ledger;
use crate::msg::{ExecuteMsg, InstantiateMsg, OwnershipAction};
use crate::outside::{lowercase, parse_uint128, str_to_lowercase};
use crate::query::{query_accumulated_rewards, rewards_total};
use crate::state::{
    all_tickets_burned, decrease_ticket_holder, increment_tickets_burned, increment_tickets_sold,
    lemma_holding_bounded, should_close_ticket_sales, update_claim, update_ticket_holder, Config,
    DrawState, Pool,
};
use crate::text::{decimal_text, parsed_u128};
use cosmwasm_std::StdError;
use vstd::prelude::*;
use vstd::string::StringExecFns;

verus! {

/// The record of a call, as what its lines say: each key with its value.
pub type Record = Seq<(Seq<char>, Seq<char>)>;

/// Whether the result `r` of a call and the pool `new` that it left agree
/// with what the call is to do on the pool `old`: reject it for `rejection`
/// and leave the pool alone, or else bring about `effect`, send `messages`
/// and record `attributes`.
pub open spec fn meets(
    r: Result<Response, ContractError>,
    old: Pool,
    new: Pool,
    rejection: Option<ContractError>,
    effect: bool,
    messages: Seq<OutboundMsg>,
    attributes: Record,
) -> bool {
    match r {
        Ok(response) => {
            &&& rejection is None
            &&& effect
            &&& response.messages@ == messages
            &&& attributes_view(response.attributes@) == attributes
        },
        Err(e) => rejection == Some(e) && new == old,
    }
}

/// The whole tickets that `units` smallest units of the ticket token make.
pub open spec fn whole_tickets(units: u128) -> u128 {
    units / TICKET_UNIT
}

/// The reason for which a purchase of `n` tickets is rejected, if it is.
/// `held` is the buyer's balance of the ticket token as the token facility
/// gave it, or the error of reading it. A purchase of no ticket that passes
/// every other test is rejected too: a purchase is of one ticket at least.
pub open spec fn buy_rejection(pool: Pool, info: MessageInfo, n: u128, held: Result<u128, StdError>)
    -> Option<ContractError> {
    let config = pool.config;
    let payment = first_amount(info.funds@, config.core_denom@);
    if n * config.ticket_price > u128::MAX {
        Some(ContractError::Overflow {  })
    } else if payment is None {
        Some(ContractError::NoFunds {  })
    } else if payment->0 < n * config.ticket_price {
        Some(
            ContractError::InsufficientFunds {
                required: (n * config.ticket_price) as u128,
                provided: payment->0,
            },
        )
    } else if config.draw_state != DrawState::TicketSalesOpen {
        Some(ContractError::TicketSalesClosed {  })
    } else if pool.total_tickets_sold + n > config.total_tickets {
        Some(
            ContractError::NotEnoughTicketsLeft {
                requested: n,
                available: room(config.total_tickets, pool.total_tickets_sold),
            },
        )
    } else {
        match held {
            Err(e) => Some(ContractError::Std(e)),
            Ok(units) => {
                if whole_tickets(units) + n > config.max_tickets_per_user {
                    Some(
                        ContractError::MaxTicketsPerUserReached {
                            requested: n,
                            available: room(config.max_tickets_per_user, whole_tickets(units)),
                        },
                    )
                } else if n == 0 {
                    Some(ContractError::InvalidTicketAmount {  })
                } else if n * TICKET_UNIT > u128::MAX {
                    Some(ContractError::Overflow {  })
                } else if pool.ticket_holders.amount(info.sender@) + n > u128::MAX {
                    Some(ContractError::Overflow {  })
                } else {
                    None
                }
            },
        }
    }
}

/// How an accepted purchase of `n` tickets changes the pool: the buyer holds
/// `n` more, `n` more are sold, and the sale closes with the last ticket.
pub open spec fn buy_effect(old: Pool, new: Pool, info: MessageInfo, n: u128) -> bool {
    let sold = (old.total_tickets_sold + n) as u128;
    let held = (old.ticket_holders.amount(info.sender@) + n) as u128;
    &&& new.ticket_holders.wf()
    &&& new.ticket_holders@ == old.ticket_holders@.insert(info.sender@, held)
    &&& new.ticket_holders.total() == old.ticket_holders.total() + n
    &&& new == (Pool {
        ticket_holders: new.ticket_holders,
        total_tickets_sold: sold,
        config: Config {
            draw_state: if sold == old.config.total_tickets {
                DrawState::TicketsSoldOutAccumulationInProgress
            } else {
                old.config.draw_state
            },
            ..old.config
        },
        ..old
    })
}

/// The messages of an accepted purchase: the price of the tickets is staked,
/// and the tickets are minted to the buyer. What was paid beyond the price
/// stays with the pool.
pub open spec fn buy_messages(pool: Pool, env: Env, info: MessageInfo, n: u128) -> Seq<
    OutboundMsg,
> {
    seq![
        OutboundMsg::Delegate {
            validator: pool.config.validator_address,
            amount: Coin {
                denom: pool.config.core_denom,
                amount: (n * pool.config.ticket_price) as u128,
            },
        },
        OutboundMsg::Mint {
            sender: env.contract_address,
            coin: Coin { denom: pool.ticket_denom, amount: (n * TICKET_UNIT) as u128 },
            recipient: info.sender,
        },
    ]
}

/// The record of an accepted purchase: who bought how many tickets for how
/// much, and that the sale is closed where the purchase sold the last ticket.
pub open spec fn buy_attributes(pool: Pool, info: MessageInfo, n: u128) -> Record {
    let lines = seq![
        ("action"@, "buy_ticket"@),
        ("buyer"@, info.sender@),
        ("tickets_purchased"@, decimal_text(n as nat)),
        ("payment_amount"@, decimal_text((n * pool.config.ticket_price) as nat)),
    ];
    if pool.total_tickets_sold + n == pool.config.total_tickets {
        lines + seq![
            ("ticket_sales"@, "closed"@),
            ("new_state"@, DrawState::TicketsSoldOutAccumulationInProgress.name_text()),
        ]
    } else {
        lines
    }
}

/// Handles a purchase of `number_of_tickets` tickets by `info.sender`, whose
/// balance of the ticket token was read as `held`.
pub fn buy_ticket(
    pool: &mut Pool,
    env: &Env,
    info: &MessageInfo,
    number_of_tickets: u128,
    held: Result<u128, StdError>,
) -> (r: Result<Response, ContractError>)
    requires
        old(pool).wf(),
    ensures
        meets(
            r,
            *old(pool),
            *final(pool),
            buy_rejection(*old(pool), *info, number_of_tickets, held),
            buy_effect(*old(pool), *final(pool), *info, number_of_tickets),
            buy_messages(*old(pool), *env, *info, number_of_tickets),
            buy_attributes(*old(pool), *info, number_of_tickets),
        ),
        final(pool).wf(),
        old(pool).balanced() ==> final(pool).balanced(),
        r is Ok ==> held is Ok && whole_tickets(held->Ok_0) + number_of_tickets
            <= old(pool).config.max_tickets_per_user,
        r is Ok && final(pool).total_tickets_sold == final(pool).config.total_tickets
            ==> final(pool).config.draw_state == DrawState::TicketsSoldOutAccumulationInProgress,
{
    let required_payment = match number_of_tickets.checked_mul(pool.config.ticket_price) {
        Some(v) => v,
        None => { return Err(ContractError::Overflow {  }); },
    };
    let payment = match find_amount(&info.funds, &pool.config.core_denom) {
        Some(p) => p,
        None => { return Err(ContractError::NoFunds {  }); },
    };
    if payment < required_payment {
        return Err(ContractError::InsufficientFunds { required: required_payment, provided: payment });
    }
    if pool.config.draw_state != DrawState::TicketSalesOpen {
        return Err(ContractError::TicketSalesClosed {  });
    }
    let total_sold = pool.total_tickets_sold;
    let total_tickets = pool.config.total_tickets;
    if total_sold > total_tickets {
        return Err(ContractError::NotEnoughTicketsLeft { requested: number_of_tickets, available: 0 });
    }
    if number_of_tickets > total_tickets - total_sold {
        return Err(
            ContractError::NotEnoughTicketsLeft {
                requested: number_of_tickets,
                available: total_tickets - total_sold,
            },
        );
    }
    let units = match held {
        Ok(units) => units,
        Err(e) => { return Err(ContractError::Std(e)); },
    };
    let user_tickets: u128 = units / TICKET_UNIT;
    let max_tickets_per_user = pool.config.max_tickets_per_user;
    if user_tickets > max_tickets_per_user {
        return Err(
            ContractError::MaxTicketsPerUserReached { requested: number_of_tickets, available: 0 },
        );
    }
    if number_of_tickets > max_tickets_per_user - user_tickets {
        return Err(
            ContractError::MaxTicketsPerUserReached {
                requested: number_of_tickets,
                available: max_tickets_per_user - user_tickets,
            },
        );
    }
    if number_of_tickets == 0 {
        return Err(ContractError::InvalidTicketAmount {  });
    }
    let mint_amount = match number_of_tickets.checked_mul(TICKET_UNIT) {
        Some(v) => v,
        None => { return Err(ContractError::Overflow {  }); },
    };
    let stake_msg = OutboundMsg::Delegate {
        validator: pool.config.validator_address.clone(),
        amount: Coin { denom: pool.config.core_denom.clone(), amount: required_payment },
    };
    let mint_msg = OutboundMsg::Mint {
        sender: env.contract_address.clone(),
        coin: Coin { denom: pool.ticket_denom.clone(), amount: mint_amount },
        recipient: info.sender.clone(),
    };
    match update_ticket_holder(pool, info.sender.as_str(), number_of_tickets) {
        Ok(_) => {},
        Err(e) => { return Err(e); },
    }
    match increment_tickets_sold(pool, number_of_tickets) {
        Ok(_) => {},
        Err(e) => { return Err(e); },
    }
    let mut attributes: Vec<Attribute> = Vec::new();
    push_attribute(&mut attributes, "action", "buy_ticket");
    push_attribute(&mut attributes, "buyer", info.sender.as_str());
    push_number(&mut attributes, "tickets_purchased", number_of_tickets);
    push_number(&mut attributes, "payment_amount", required_payment);
    if should_close_ticket_sales(pool) {
        pool.config.draw_state = DrawState::TicketsSoldOutAccumulationInProgress;
        push_attribute(&mut attributes, "ticket_sales", "closed");
        push_attribute(
            &mut attributes,
            "new_state",
            DrawState::TicketsSoldOutAccumulationInProgress.name(),
        );
    }
    let mut messages: Vec<OutboundMsg> = Vec::new();
    messages.push(stake_msg);
    messages.push(mint_msg);
    assert(messages@ =~= buy_messages(*old(pool), *env, *info, number_of_tickets));
    assert(attributes_view(attributes@) =~= buy_attributes(
        *old(pool),
        *info,
        number_of_tickets,
    ));
    Ok(Response { messages, attributes })
}

/// What `execute_buy_ticket` is to do for a balance that the token facility
/// wrote as `balance`: what `buy_ticket` does for the number that was read,
/// or for the error of reading it.
pub open spec fn buy_meets(
    r: Result<Response, ContractError>,
    old: Pool,
    new: Pool,
    env: Env,
    info: MessageInfo,
    n: u128,
    held: Result<u128, StdError>,
) -> bool {
    meets(
        r,
        old,
        new,
        buy_rejection(old, info, n, held),
        buy_effect(old, new, info, n),
        buy_messages(old, env, info, n),
        buy_attributes(old, info, n),
    )
}

/// Handles `BuyTicket`: `info.sender` buys `number_of_tickets` tickets.
/// `balance` is the sender's balance of the ticket token, in smallest units,
/// as the token facility wrote it.
pub fn execute_buy_ticket(
    pool: &mut Pool,
    env: &Env,
    info: &MessageInfo,
    number_of_tickets: u128,
    balance: &str,
) -> (r: Result<Response, ContractError>)
    requires
        old(pool).wf(),
    ensures
        parsed_u128(balance@) matches Some(units) ==> buy_meets(
            r,
            *old(pool),
            *final(pool),
            *env,
            *info,
            number_of_tickets,
            Ok(units),
        ),
        parsed_u128(balance@) is None ==> exists|e: StdError| #[trigger]
            buy_meets(r, *old(pool), *final(pool), *env, *info, number_of_tickets, Err(e)),
        final(pool).wf(),
        old(pool).balanced() ==> final(pool).balanced(),
        r is Ok ==> parsed_u128(balance@) is Some && whole_tickets(parsed_u128(balance@)->0)
            + number_of_tickets <= old(pool).config.max_tickets_per_user,
        r is Ok && final(pool).total_tickets_sold == final(pool).config.total_tickets
            ==> final(pool).config.draw_state == DrawState::TicketsSoldOutAccumulationInProgress,
{
    let held = parse_uint128(balance);
    let ghost seen = held;
    let r = buy_ticket(pool, env, info, number_of_tickets, held);
    proof {
        if let Err(e) = seen {
            assert(buy_meets(r, *old(pool), *pool, *env, *info, number_of_tickets, Err(e)));
        }
    }
    r
}

/// The phase in which an accepted burn finds the round: a round that waited
/// for its stake has reached its deadline and passes on to the burning of
/// tickets.
pub open spec fn matured_state(config: Config) -> DrawState {
    if config.draw_state == DrawState::WinnerSelectedUndelegationInProcess
        && config.undelegation_done_timestamp is Some {
        DrawState::UndelegationCompletedTokensCanBeBurned
    } else {
        config.draw_state
    }
}

/// The reason for which a burn of `n` tickets at the time `env.block_time` is
/// rejected, if it is. A burn of no ticket that passes every other test is
/// rejected too: a burn is of one ticket at least.
pub open spec fn burn_rejection(pool: Pool, env: Env, info: MessageInfo, n: u128) -> Option<
    ContractError,
> {
    let config = pool.config;
    let handed_in = first_amount(info.funds@, pool.ticket_denom@);
    if config.draw_state != DrawState::WinnerSelectedUndelegationInProcess && config.draw_state
        != DrawState::UndelegationCompletedTokensCanBeBurned {
        Some(
            ContractError::InvalidDrawState {
                expected: DrawState::UndelegationCompletedTokensCanBeBurned,
                actual: config.draw_state,
            },
        )
    } else if config.draw_state == DrawState::WinnerSelectedUndelegationInProcess
        && config.undelegation_done_timestamp is Some && env.block_time
        < config.undelegation_done_timestamp->0 {
        Some(
            ContractError::UndelegationPeriodNotCompleted {
                current_timestamp: env.block_time,
                undelegation_timestamp: config.undelegation_done_timestamp->0,
            },
        )
    } else if handed_in is None {
        Some(ContractError::NoFunds {  })
    } else if n * TICKET_UNIT > u128::MAX {
        Some(ContractError::Overflow {  })
    } else if handed_in->0 < n * TICKET_UNIT {
        Some(
            ContractError::InsufficientFunds {
                required: (n * TICKET_UNIT) as u128,
                provided: handed_in->0,
            },
        )
    } else if n * config.ticket_price > u128::MAX {
        Some(ContractError::Overflow {  })
    } else if pool.ticket_holders.amount(info.sender@) < n || !pool.ticket_holders@.contains_key(
        info.sender@,
    ) {
        Some(
            ContractError::NotEnoughTickets {
                requested: n,
                available: pool.ticket_holders.amount(info.sender@),
            },
        )
    } else if n == 0 {
        Some(ContractError::InvalidTicketAmount {  })
    } else if pool.total_tickets_burned + n > u128::MAX {
        Some(ContractError::Overflow {  })
    } else if pool.claims.amount(info.sender@) + n * config.ticket_price > u128::MAX {
        Some(ContractError::Overflow {  })
    } else {
        None
    }
}

/// How an accepted burn of `n` tickets changes the pool: the holder holds `n`
/// fewer, `n` more are burned, their price is added to the holder's refunds,
/// and the round is finished with the last ticket.
pub open spec fn burn_effect(old: Pool, new: Pool, env: Env, info: MessageInfo, n: u128) -> bool {
    let burned = (old.total_tickets_burned + n) as u128;
    let refund = (n * old.config.ticket_price) as u128;
    let left = (old.ticket_holders.amount(info.sender@) - n) as u128;
    let claimed = (old.claims.amount(info.sender@) + refund) as u128;
    &&& new.ticket_holders.wf()
    &&& new.claims.wf()
    &&& new.ticket_holders@ == old.ticket_holders@.insert(info.sender@, left)
    &&& new.ticket_holders.total() == old.ticket_holders.total() - n
    &&& new.claims@ == old.claims@.insert(info.sender@, claimed)
    &&& new.claims.total() == old.claims.total() + refund
    &&& new == (Pool {
        ticket_holders: new.ticket_holders,
        claims: new.claims,
        total_tickets_burned: burned,
        config: Config {
            draw_state: if burned == old.total_tickets_sold {
                DrawState::DrawFinished
            } else {
                matured_state(old.config)
            },
            ..old.config
        },
        ..old
    })
}

/// The one message of an accepted burn: the price of the tickets is paid
/// back to the holder. The tickets that were handed in stay with the pool.
pub open spec fn burn_messages(pool: Pool, info: MessageInfo, n: u128) -> Seq<OutboundMsg> {
    seq![
        OutboundMsg::Send {
            to_address: info.sender,
            amount: Coin {
                denom: pool.config.core_denom,
                amount: (n * pool.config.ticket_price) as u128,
            },
        },
    ]
}

/// The record of an accepted burn: who burned how many tickets for which
/// refund, and that the round is finished where the burn burned the last
/// ticket.
pub open spec fn burn_attributes(pool: Pool, info: MessageInfo, n: u128) -> Record {
    let lines = seq![
        ("action"@, "burn_tickets"@),
        ("burner"@, info.sender@),
        ("tickets_burned"@, decimal_text(n as nat)),
        ("refund_amount"@, decimal_text((n * pool.config.ticket_price) as nat)),
    ];
    if pool.total_tickets_burned + n == pool.total_tickets_sold {
        lines + seq![("new_state"@, DrawState::DrawFinished.name_text())]
    } else {
        lines
    }
}

/// Handles `BurnTickets`: `info.sender` hands in `number_of_tickets` tickets
/// and gets their price back.
pub fn execute_burn_tickets(
    pool: &mut Pool,
    env: &Env,
    info: &MessageInfo,
    number_of_tickets: u128,
) -> (r: Result<Response, ContractError>)
    requires
        old(pool).wf(),
    ensures
        meets(
            r,
            *old(pool),
            *final(pool),
            burn_rejection(*old(pool), *env, *info, number_of_tickets),
            burn_effect(*old(pool), *final(pool), *env, *info, number_of_tickets),
            burn_messages(*old(pool), *info, number_of_tickets),
            burn_attributes(*old(pool), *info, number_of_tickets),
        ),
        final(pool).wf(),
        old(pool).balanced() ==> final(pool).balanced(),
        r is Ok && final(pool).total_tickets_burned == final(pool).total_tickets_sold
            ==> final(pool).config.draw_state == DrawState::DrawFinished,
{
    let state = pool.config.draw_state;
    if state != DrawState::WinnerSelectedUndelegationInProcess && state
        != DrawState::UndelegationCompletedTokensCanBeBurned {
        return Err(
            ContractError::InvalidDrawState {
                expected: DrawState::UndelegationCompletedTokensCanBeBurned,
                actual: state,
            },
        );
    }
    let mut next_state = state;
    if state == DrawState::WinnerSelectedUndelegationInProcess {
        if let Some(undelegation_timestamp) = pool.config.undelegation_done_timestamp {
            if env.block_time >= undelegation_timestamp {
                next_state = DrawState::UndelegationCompletedTokensCanBeBurned;
            } else {
                return Err(
                    ContractError::UndelegationPeriodNotCompleted {
                        current_timestamp: env.block_time,
                        undelegation_timestamp,
                    },
                );
            }
        }
    }
    let payment = match find_amount(&info.funds, &pool.ticket_denom) {
        Some(p) => p,
        None => { return Err(ContractError::NoFunds {  }); },
    };
    let required = match number_of_tickets.checked_mul(TICKET_UNIT) {
        Some(v) => v,
        None => { return Err(ContractError::Overflow {  }); },
    };
    if payment < required {
        return Err(ContractError::InsufficientFunds { required, provided: payment });
    }
    let refund_amount = match number_of_tickets.checked_mul(pool.config.ticket_price) {
        Some(v) => v,
        None => { return Err(ContractError::Overflow {  }); },
    };
    let sender = info.sender.as_str();
    match pool.ticket_holders.get(sender) {
        Some(value) => {
            if value < number_of_tickets {
                return Err(
                    ContractError::NotEnoughTickets {
                        requested: number_of_tickets,
                        available: value,
                    },
                );
            }
        },
        None => {
            return Err(
                ContractError::NotEnoughTickets { requested: number_of_tickets, available: 0 },
            );
        },
    }
    if number_of_tickets == 0 {
        return Err(ContractError::InvalidTicketAmount {  });
    }
    if pool.total_tickets_burned > u128::MAX - number_of_tickets {
        return Err(ContractError::Overflow {  });
    }
    let claimed = match pool.claims.get(sender) {
        Some(value) => value,
        None => 0,
    };
    if claimed > u128::MAX - refund_amount {
        return Err(ContractError::Overflow {  });
    }
    let send_refund_msg = OutboundMsg::Send {
        to_address: info.sender.clone(),
        amount: Coin { denom: pool.config.core_denom.clone(), amount: refund_amount },
    };
    proof {
        if pool.balanced() {
            lemma_holding_bounded(*pool, info.sender@);
            assert((pool.total_tickets_burned + number_of_tickets) * pool.config.ticket_price
                == pool.total_tickets_burned * pool.config.ticket_price + number_of_tickets
                * pool.config.ticket_price) by (nonlinear_arith);
        }
    }
    match decrease_ticket_holder(pool, sender, number_of_tickets) {
        Ok(_) => {},
        Err(e) => { return Err(e); },
    }
    match increment_tickets_burned(pool, number_of_tickets) {
        Ok(_) => {},
        Err(e) => { return Err(e); },
    }
    match update_claim(pool, sender, refund_amount) {
        Ok(_) => {},
        Err(e) => { return Err(e); },
    }
    let mut attributes: Vec<Attribute> = Vec::new();
    push_attribute(&mut attributes, "action", "burn_tickets");
    push_attribute(&mut attributes, "burner", sender);
    push_number(&mut attributes, "tickets_burned", number_of_tickets);
    push_number(&mut attributes, "refund_amount", refund_amount);
    if all_tickets_burned(pool) {
        pool.config.draw_state = DrawState::DrawFinished;
        push_attribute(&mut attributes, "new_state", DrawState::DrawFinished.name());
    } else {
        pool.config.draw_state = next_state;
    }
    let mut messages: Vec<OutboundMsg> = Vec::new();
    messages.push(send_refund_msg);
    assert(messages@ =~= burn_messages(*old(pool), *info, number_of_tickets));
    assert(attributes_view(attributes@) =~= burn_attributes(
        *old(pool),
        *info,
        number_of_tickets,
    ));
    Ok(Response { messages, attributes })
}

/// Whether `sender` is the owner of the pool.
pub fn sender_is_owner(pool: &Pool, sender: &String) -> (r: bool)
    ensures
        r == pool.is_owner(sender@),
{
    match &pool.config.owner {
        Some(owner) => *owner == *sender,
        None => false,
    }
}

/// The reason for which the naming of a winner is rejected, if it is. A
/// winner is named once: where one is written down, a naming that passes
/// every other test is rejected too, in whatever phase the round was put by
/// hand. `rewards` and `delegation` are
/// what the staking facility reports of the pool's stake, or the errors of
/// asking it.
pub open spec fn select_rejection(
    pool: Pool,
    env: Env,
    info: MessageInfo,
    winner: Seq<char>,
    rewards: Result<Vec<DecCoin>, StdError>,
    delegation: Result<Option<Coin>, StdError>,
) -> Option<ContractError> {
    let config = pool.config;
    let accrued = rewards_total(reported(rewards), config.core_denom@);
    if !pool.is_owner(info.sender@) {
        Some(ContractError::Unauthorized {  })
    } else if config.draw_state != DrawState::TicketsSoldOutAccumulationInProgress {
        Some(
            ContractError::InvalidDrawState {
                expected: DrawState::TicketsSoldOutAccumulationInProgress,
                actual: config.draw_state,
            },
        )
    } else if pool.ticket_holders.amount(winner) == 0 {
        Some(ContractError::NoTicketsForAddress {  })
    } else if rewards is Err {
        Some(ContractError::Std(rewards->Err_0))
    } else if accrued > u128::MAX || accrued + config.bonus_rewards > u128::MAX {
        Some(ContractError::Overflow {  })
    } else if delegation is Err {
        Some(ContractError::Std(delegation->Err_0))
    } else if env.block_time + UNDELEGATION_PERIOD_SECONDS > u64::MAX {
        Some(ContractError::Overflow {  })
    } else if config.winner is Some {
        Some(ContractError::WinnerAlreadySelected {  })
    } else {
        None
    }
}

/// How the naming of a winner changes the pool: the winner and the rewards
/// accrued so far are written down and are still to be paid, the deadline is
/// set one unbonding period from now, and the round waits for the stake to
/// come back.
pub open spec fn select_effect(
    old: Pool,
    new: Pool,
    env: Env,
    winner: String,
    rewards: Seq<DecCoin>,
) -> bool {
    let accrued = rewards_total(rewards, old.config.core_denom@) as u128;
    new == (Pool {
        config: Config {
            winner: Some(winner),
            accumulated_rewards: accrued,
            draw_state: DrawState::WinnerSelectedUndelegationInProcess,
            undelegation_done_timestamp: Some(
                (env.block_time + UNDELEGATION_PERIOD_SECONDS) as u64,
            ),
            ..old.config
        },
        accumulated_rewards_at_undelegation: Some(accrued),
        rewards_paid: false,
        ..old
    })
}

/// The messages of the naming of a winner: all that is staked is unstaked.
pub open spec fn select_messages(pool: Pool, delegation: Option<Coin>) -> Seq<OutboundMsg> {
    if delegation is Some && delegation->0.amount > 0 {
        seq![
            OutboundMsg::Undelegate {
                validator: pool.config.validator_address,
                amount: Coin { denom: pool.config.core_denom, amount: delegation->0.amount },
            },
        ]
    } else {
        seq![]
    }
}

/// The record of the naming of a winner: the winner, what the winner is to
/// receive as it stands now, the deadline, and the new phase.
pub open spec fn select_attributes(pool: Pool, env: Env, winner: Seq<char>, rewards: Seq<DecCoin>)
    -> Record {
    let accrued = rewards_total(rewards, pool.config.core_denom@);
    seq![
        ("action"@, "select_winner_and_undelegate"@),
        ("winner"@, winner),
        ("rewards_amount"@, decimal_text((accrued + pool.config.bonus_rewards) as nat)),
        (
            "undelegation_done_timestamp"@,
            decimal_text((env.block_time + UNDELEGATION_PERIOD_SECONDS) as nat),
        ),
        ("new_state"@, DrawState::WinnerSelectedUndelegationInProcess.name_text()),
    ]
}

/// Handles `SelectWinnerAndUndelegate`: the owner names `winner_address`, an
/// address that the chain has found valid, as the winner. `rewards` and
/// `delegation` are what the staking facility reports of the pool's stake,
/// or the errors of asking it.
pub fn execute_select_winner_and_undelegate(
    pool: &mut Pool,
    env: &Env,
    info: &MessageInfo,
    winner_address: String,
    rewards: Result<Vec<DecCoin>, StdError>,
    delegation: Result<Option<Coin>, StdError>,
) -> (r: Result<Response, ContractError>)
    requires
        old(pool).wf(),
    ensures
        meets(
            r,
            *old(pool),
            *final(pool),
            select_rejection(*old(pool), *env, *info, winner_address@, rewards, delegation),
            select_effect(*old(pool), *final(pool), *env, winner_address, reported(rewards)),
            select_messages(*old(pool), staked(delegation)),
            select_attributes(*old(pool), *env, winner_address@, reported(rewards)),
        ),
        final(pool).wf(),
        old(pool).balanced() ==> final(pool).balanced(),
{
    if !sender_is_owner(pool, &info.sender) {
        return Err(ContractError::Unauthorized {  });
    }
    if pool.config.draw_state != DrawState::TicketsSoldOutAccumulationInProgress {
        return Err(
            ContractError::InvalidDrawState {
                expected: DrawState::TicketsSoldOutAccumulationInProgress,
                actual: pool.config.draw_state,
            },
        );
    }
    let winner_tickets = match pool.ticket_holders.get(winner_address.as_str()) {
        Some(value) => value,
        None => 0,
    };
    if winner_tickets == 0 {
        return Err(ContractError::NoTicketsForAddress {  });
    }
    let coins = match rewards {
        Ok(coins) => coins,
        Err(e) => { return Err(ContractError::Std(e)); },
    };
    let accumulated_rewards = match query_accumulated_rewards(pool, &coins) {
        Ok(response) => response.accumulated_rewards,
        Err(e) => { return Err(e); },
    };
    if accumulated_rewards > u128::MAX - pool.config.bonus_rewards {
        return Err(ContractError::Overflow {  });
    }
    let delegation = match delegation {
        Ok(delegation) => delegation,
        Err(e) => { return Err(ContractError::Std(e)); },
    };
    if env.block_time > u64::MAX - UNDELEGATION_PERIOD_SECONDS {
        return Err(ContractError::Overflow {  });
    }
    if pool.config.winner.is_some() {
        return Err(ContractError::WinnerAlreadySelected {  });
    }
    let undelegation_done_timestamp: u64 = env.block_time + UNDELEGATION_PERIOD_SECONDS;
    let mut messages: Vec<OutboundMsg> = Vec::new();
    if let Some(staked) = &delegation {
        if staked.amount > 0 {
            messages.push(
                OutboundMsg::Undelegate {
                    validator: pool.config.validator_address.clone(),
                    amount: Coin { denom: pool.config.core_denom.clone(), amount: staked.amount },
                },
            );
        }
    }
    assert(messages@ =~= select_messages(*old(pool), delegation));
    let total_rewards: u128 = accumulated_rewards + pool.config.bonus_rewards;
    let mut attributes: Vec<Attribute> = Vec::new();
    push_attribute(&mut attributes, "action", "select_winner_and_undelegate");
    push_attribute(&mut attributes, "winner", winner_address.as_str());
    push_number(&mut attributes, "rewards_amount", total_rewards);
    push_number(
        &mut attributes,
        "undelegation_done_timestamp",
        undelegation_done_timestamp as u128,
    );
    push_attribute(
        &mut attributes,
        "new_state",
        DrawState::WinnerSelectedUndelegationInProcess.name(),
    );
    assert(attributes_view(attributes@) =~= select_attributes(
        *old(pool),
        *env,
        winner_address@,
        coins@,
    ));
    pool.accumulated_rewards_at_undelegation = Some(accumulated_rewards);
    pool.rewards_paid = false;
    pool.config.winner = Some(winner_address);
    pool.config.accumulated_rewards = accumulated_rewards;
    pool.config.draw_state = DrawState::WinnerSelectedUndelegationInProcess;
    pool.config.undelegation_done_timestamp = Some(undelegation_done_timestamp);
    Ok(Response { messages, attributes })
}

/// The reason for which the payout to the winner is rejected, if it is. A
/// round pays out once: a second payout that passes every other test is
/// rejected too.
pub open spec fn payout_rejection(pool: Pool, env: Env, info: MessageInfo) -> Option<
    ContractError,
> {
    let config = pool.config;
    if !pool.is_owner(info.sender@) {
        Some(ContractError::Unauthorized {  })
    } else if config.draw_state != DrawState::WinnerSelectedUndelegationInProcess {
        Some(
            ContractError::InvalidDrawState {
                expected: DrawState::WinnerSelectedUndelegationInProcess,
                actual: config.draw_state,
            },
        )
    } else if config.undelegation_done_timestamp is Some && env.block_time
        < config.undelegation_done_timestamp->0 {
        Some(
            ContractError::UndelegationPeriodNotCompleted {
                current_timestamp: env.block_time,
                undelegation_timestamp: config.undelegation_done_timestamp->0,
            },
        )
    } else if config.winner is None {
        Some(ContractError::NoWinnerSelected {  })
    } else if config.accumulated_rewards + config.bonus_rewards > u128::MAX {
        Some(ContractError::Overflow {  })
    } else if pool.rewards_paid {
        Some(ContractError::NoRewardsToSend {  })
    } else {
        None
    }
}

/// The one message of the payout: the rewards written down at the naming of
/// the winner, and the bonus as it stands now, go to the winner.
pub open spec fn payout_messages(pool: Pool) -> Seq<OutboundMsg> {
    seq![
        OutboundMsg::Send {
            to_address: pool.config.winner->0,
            amount: Coin {
                denom: pool.config.core_denom,
                amount: (pool.config.accumulated_rewards + pool.config.bonus_rewards) as u128,
            },
        },
    ]
}

/// The record of the payout: the winner and what the winner receives.
pub open spec fn payout_attributes(pool: Pool) -> Record {
    seq![
        ("action"@, "send_funds_to_winner"@),
        ("winner"@, pool.config.winner->0@),
        (
            "rewards_amount"@,
            decimal_text((pool.config.accumulated_rewards + pool.config.bonus_rewards) as nat),
        ),
    ]
}

/// Handles `SendFundsToWinner`: the owner pays the rewards out, once. The
/// phase stays as it is; it moves on only with a burn.
pub fn execute_send_funds_to_winner(pool: &mut Pool, env: &Env, info: &MessageInfo) -> (r: Result<
    Response,
    ContractError,
>)
    requires
        old(pool).wf(),
    ensures
        meets(
            r,
            *old(pool),
            *final(pool),
            payout_rejection(*old(pool), *env, *info),
            *final(pool) == (Pool { rewards_paid: true, ..*old(pool) }),
            payout_messages(*old(pool)),
            payout_attributes(*old(pool)),
        ),
        final(pool).wf(),
        old(pool).balanced() ==> final(pool).balanced(),
{
    if !sender_is_owner(pool, &info.sender) {
        return Err(ContractError::Unauthorized {  });
    }
    if pool.config.draw_state != DrawState::WinnerSelectedUndelegationInProcess {
        return Err(
            ContractError::InvalidDrawState {
                expected: DrawState::WinnerSelectedUndelegationInProcess,
                actual: pool.config.draw_state,
            },
        );
    }
    if let Some(undelegation_timestamp) = pool.config.undelegation_done_timestamp {
        if env.block_time < undelegation_timestamp {
            return Err(
                ContractError::UndelegationPeriodNotCompleted {
                    current_timestamp: env.block_time,
                    undelegation_timestamp,
                },
            );
        }
    }
    let winner_addr = match &pool.config.winner {
        Some(winner) => winner.clone(),
        None => { return Err(ContractError::NoWinnerSelected {  }); },
    };
    let total_rewards = match pool.config.accumulated_rewards.checked_add(
        pool.config.bonus_rewards,
    ) {
        Some(v) => v,
        None => { return Err(ContractError::Overflow {  }); },
    };
    if pool.rewards_paid {
        return Err(ContractError::NoRewardsToSend {  });
    }
    let mut attributes: Vec<Attribute> = Vec::new();
    push_attribute(&mut attributes, "action", "send_funds_to_winner");
    push_attribute(&mut attributes, "winner", winner_addr.as_str());
    push_number(&mut attributes, "rewards_amount", total_rewards);
    assert(attributes_view(attributes@) =~= payout_attributes(*old(pool)));
    let mut messages: Vec<OutboundMsg> = Vec::new();
    messages.push(
        OutboundMsg::Send {
            to_address: winner_addr,
            amount: Coin { denom: pool.config.core_denom.clone(), amount: total_rewards },
        },
    );
    assert(messages@ =~= payout_messages(*old(pool)));
    pool.rewards_paid = true;
    Ok(Response { messages, attributes })
}

/// The reason for which an addition to the bonus is rejected, if it is.
pub open spec fn bonus_rejection(pool: Pool, info: MessageInfo, amount: u128) -> Option<
    ContractError,
> {
    let sent = first_amount(info.funds@, pool.config.core_denom@);
    if sent is None {
        Some(ContractError::NoFunds {  })
    } else if sent->0 < amount {
        Some(ContractError::InsufficientFunds { required: amount, provided: sent->0 })
    } else if pool.config.bonus_rewards + amount > u128::MAX {
        Some(ContractError::Overflow {  })
    } else {
        None
    }
}

/// The record of an addition to the bonus: who added how much.
pub open spec fn bonus_attributes(info: MessageInfo, amount: u128) -> Record {
    seq![
        ("action"@, "add_bonus_reward"@),
        ("sender"@, info.sender@),
        ("amount"@, decimal_text(amount as nat)),
    ]
}

/// Handles `AddBonusRewardToThePool`: anyone adds `amount` to the bonus, in
/// any phase of the round.
pub fn execute_add_bonus_reward(pool: &mut Pool, info: &MessageInfo, amount: u128) -> (r: Result<
    Response,
    ContractError,
>)
    requires
        old(pool).wf(),
    ensures
        meets(
            r,
            *old(pool),
            *final(pool),
            bonus_rejection(*old(pool), *info, amount),
            *final(pool) == (Pool {
                config: Config {
                    bonus_rewards: (old(pool).config.bonus_rewards + amount) as u128,
                    ..old(pool).config
                },
                ..*old(pool)
            }),
            Seq::<OutboundMsg>::empty(),
            bonus_attributes(*info, amount),
        ),
        final(pool).wf(),
        old(pool).balanced() ==> final(pool).balanced(),
{
    let sent = match find_amount(&info.funds, &pool.config.core_denom) {
        Some(p) => p,
        None => { return Err(ContractError::NoFunds {  }); },
    };
    if sent < amount {
        return Err(ContractError::InsufficientFunds { required: amount, provided: sent });
    }
    let bonus = match pool.config.bonus_rewards.checked_add(amount) {
        Some(v) => v,
        None => { return Err(ContractError::Overflow {  }); },
    };
    pool.config.bonus_rewards = bonus;
    let mut attributes: Vec<Attribute> = Vec::new();
    push_attribute(&mut attributes, "action", "add_bonus_reward");
    push_attribute(&mut attributes, "sender", info.sender.as_str());
    push_number(&mut attributes, "amount", amount);
    assert(attributes_view(attributes@) =~= bonus_attributes(*info, amount));
    Ok(Response { messages: Vec::new(), attributes })
}

/// The reason for which a call that only the owner may make is rejected, if
/// it is.
pub open spec fn owner_rejection(pool: Pool, info: MessageInfo) -> Option<ContractError> {
    if !pool.is_owner(info.sender@) {
        Some(ContractError::Unauthorized {  })
    } else {
        None
    }
}

/// The record of the setting of the phase by hand: the new phase.
pub open spec fn phase_attributes(new_state: DrawState) -> Record {
    seq![("action"@, "update_draw_state"@), ("new_state"@, new_state.name_text())]
}

/// Handles `UpdateDrawState`: the owner sets the phase of the round by hand.
pub fn execute_update_draw_state(pool: &mut Pool, info: &MessageInfo, new_state: DrawState) -> (r:
    Result<Response, ContractError>)
    requires
        old(pool).wf(),
    ensures
        meets(
            r,
            *old(pool),
            *final(pool),
            owner_rejection(*old(pool), *info),
            *final(pool) == (Pool {
                config: Config { draw_state: new_state, ..old(pool).config },
                ..*old(pool)
            }),
            Seq::<OutboundMsg>::empty(),
            phase_attributes(new_state),
        ),
        final(pool).wf(),
        old(pool).balanced() ==> final(pool).balanced(),
{
    if !sender_is_owner(pool, &info.sender) {
        return Err(ContractError::Unauthorized {  });
    }
    pool.config.draw_state = new_state;
    let mut attributes: Vec<Attribute> = Vec::new();
    push_attribute(&mut attributes, "action", "update_draw_state");
    push_attribute(&mut attributes, "new_state", new_state.name());
    assert(attributes_view(attributes@) =~= phase_attributes(new_state));
    Ok(Response { messages: Vec::new(), attributes })
}

/// The record of a payment by hand: to whom and how much.
pub open spec fn send_attributes(recipient: Seq<char>, amount: u128) -> Record {
    seq![
        ("action"@, "send_funds"@),
        ("recipient"@, recipient),
        ("amount"@, decimal_text(amount as nat)),
    ]
}

/// Handles `SendFunds`: the owner pays `amount` of the base asset out of the
/// pool's balance to `recipient`. The pool's books are not touched.
pub fn execute_send_funds(pool: &mut Pool, info: &MessageInfo, recipient: String, amount: u128) -> (r:
    Result<Response, ContractError>)
    requires
        old(pool).wf(),
    ensures
        meets(
            r,
            *old(pool),
            *final(pool),
            owner_rejection(*old(pool), *info),
            *final(pool) == *old(pool),
            seq![
                OutboundMsg::Send {
                    to_address: recipient,
                    amount: Coin { denom: old(pool).config.core_denom, amount },
                },
            ],
            send_attributes(recipient@, amount),
        ),
        final(pool).wf(),
        old(pool).balanced() ==> final(pool).balanced(),
{
    if !sender_is_owner(pool, &info.sender) {
        return Err(ContractError::Unauthorized {  });
    }
    let mut attributes: Vec<Attribute> = Vec::new();
    push_attribute(&mut attributes, "action", "send_funds");
    push_attribute(&mut attributes, "recipient", recipient.as_str());
    push_number(&mut attributes, "amount", amount);
    assert(attributes_view(attributes@) =~= send_attributes(recipient@, amount));
    let mut messages: Vec<OutboundMsg> = Vec::new();
    messages.push(
        OutboundMsg::Send {
            to_address: recipient,
            amount: Coin { denom: pool.config.core_denom.clone(), amount },
        },
    );
    Ok(Response { messages, attributes })
}

/// The reason for which the setting of the deadline is rejected, if it is.
pub open spec fn deadline_rejection(pool: Pool, info: MessageInfo) -> Option<ContractError> {
    if !pool.is_owner(info.sender@) {
        Some(ContractError::Unauthorized {  })
    } else if pool.config.draw_state != DrawState::WinnerSelectedUndelegationInProcess {
        Some(
            ContractError::InvalidDrawState {
                expected: DrawState::WinnerSelectedUndelegationInProcess,
                actual: pool.config.draw_state,
            },
        )
    } else {
        None
    }
}

/// The record of the setting of the deadline by hand: the new deadline.
pub open spec fn deadline_attributes(timestamp: u64) -> Record {
    seq![
        ("action"@, "set_undelegation_timestamp"@),
        ("timestamp"@, decimal_text(timestamp as nat)),
    ]
}

/// Handles `SetUndelegationTimestamp`: the owner sets the deadline by hand,
/// while the round waits for the stake to come back.
pub fn execute_set_undelegation_timestamp(pool: &mut Pool, info: &MessageInfo, timestamp: u64) -> (r:
    Result<Response, ContractError>)
    requires
        old(pool).wf(),
    ensures
        meets(
            r,
            *old(pool),
            *final(pool),
            deadline_rejection(*old(pool), *info),
            *final(pool) == (Pool {
                config: Config {
                    undelegation_done_timestamp: Some(timestamp),
                    ..old(pool).config
                },
                ..*old(pool)
            }),
            Seq::<OutboundMsg>::empty(),
            deadline_attributes(timestamp),
        ),
        final(pool).wf(),
        old(pool).balanced() ==> final(pool).balanced(),
{
    if !sender_is_owner(pool, &info.sender) {
        return Err(ContractError::Unauthorized {  });
    }
    if pool.config.draw_state != DrawState::WinnerSelectedUndelegationInProcess {
        return Err(
            ContractError::InvalidDrawState {
                expected: DrawState::WinnerSelectedUndelegationInProcess,
                actual: pool.config.draw_state,
            },
        );
    }
    pool.config.undelegation_done_timestamp = Some(timestamp);
    let mut attributes: Vec<Attribute> = Vec::new();
    push_attribute(&mut attributes, "action", "set_undelegation_timestamp");
    push_number(&mut attributes, "timestamp", timestamp as u128);
    assert(attributes_view(attributes@) =~= deadline_attributes(timestamp));
    Ok(Response { messages: Vec::new(), attributes })
}

/// The record of the handover of the token's administration: the new admin.
pub open spec fn admin_attributes(new_admin: Seq<char>) -> Record {
    seq![("action"@, "transfer_token_admin"@), ("new_admin"@, new_admin)]
}

/// Handles `TransferTokenAdmin`: the owner hands the administration of the
/// ticket token to `new_admin`. The ownership of the pool stays where it is.
pub fn execute_transfer_token_admin(
    pool: &mut Pool,
    env: &Env,
    info: &MessageInfo,
    new_admin: String,
) -> (r: Result<Response, ContractError>)
    requires
        old(pool).wf(),
    ensures
        meets(
            r,
            *old(pool),
            *final(pool),
            owner_rejection(*old(pool), *info),
            *final(pool) == *old(pool),
            seq![
                OutboundMsg::TransferAdmin {
                    sender: env.contract_address,
                    account: new_admin,
                    denom: old(pool).ticket_denom,
                },
            ],
            admin_attributes(new_admin@),
        ),
        final(pool).wf(),
        old(pool).balanced() ==> final(pool).balanced(),
{
    if !sender_is_owner(pool, &info.sender) {
        return Err(ContractError::Unauthorized {  });
    }
    let mut attributes: Vec<Attribute> = Vec::new();
    push_attribute(&mut attributes, "action", "transfer_token_admin");
    push_attribute(&mut attributes, "new_admin", new_admin.as_str());
    assert(attributes_view(attributes@) =~= admin_attributes(new_admin@));
    let mut messages: Vec<OutboundMsg> = Vec::new();
    messages.push(
        OutboundMsg::TransferAdmin {
            sender: env.contract_address.clone(),
            account: new_admin,
            denom: pool.ticket_denom.clone(),
        },
    );
    Ok(Response { messages, attributes })
}

/// Whether `sender` is the address that was offered the ownership.
pub open spec fn is_pending_owner(pool: Pool, sender: Seq<char>) -> bool {
    pool.pending_owner matches Some(pending) && pending@ == sender
}

/// The reason for which a step of the handover of ownership is rejected, if
/// it is: to offer and to renounce is the owner's, to accept is for the
/// address that the ownership was offered to.
pub open spec fn ownership_rejection(pool: Pool, info: MessageInfo, action: OwnershipAction)
    -> Option<ContractError> {
    let allowed = match action {
        OwnershipAction::TransferOwnership { .. } => pool.is_owner(info.sender@),
        OwnershipAction::AcceptOwnership => is_pending_owner(pool, info.sender@),
        OwnershipAction::RenounceOwnership => pool.is_owner(info.sender@),
    };
    if allowed {
        None
    } else {
        Some(ContractError::Unauthorized {  })
    }
}

/// How a step of the handover of ownership changes the pool.
pub open spec fn ownership_effect(old: Pool, new: Pool, info: MessageInfo, action: OwnershipAction)
    -> bool {
    match action {
        OwnershipAction::TransferOwnership { new_owner } => new == (Pool {
            pending_owner: Some(new_owner),
            ..old
        }),
        OwnershipAction::AcceptOwnership => new == (Pool {
            config: Config { owner: Some(info.sender), ..old.config },
            pending_owner: None,
            ..old
        }),
        OwnershipAction::RenounceOwnership => new == (Pool {
            config: Config { owner: None, ..old.config },
            pending_owner: None,
            ..old
        }),
    }
}

/// The record of a step of the handover of ownership: who took it.
pub open spec fn ownership_attributes(info: MessageInfo) -> Record {
    seq![("action"@, "update_ownership"@), ("sender"@, info.sender@)]
}

/// Handles `UpdateOwnership`: the ownership of the pool passes in two steps,
/// an offer by the owner and its acceptance by the new owner, or is given up.
pub fn execute_update_ownership(pool: &mut Pool, info: &MessageInfo, action: OwnershipAction) -> (r:
    Result<Response, ContractError>)
    requires
        old(pool).wf(),
    ensures
        meets(
            r,
            *old(pool),
            *final(pool),
            ownership_rejection(*old(pool), *info, action),
            ownership_effect(*old(pool), *final(pool), *info, action),
            Seq::<OutboundMsg>::empty(),
            ownership_attributes(*info),
        ),
        final(pool).wf(),
        old(pool).balanced() ==> final(pool).balanced(),
{
    match action {
        OwnershipAction::TransferOwnership { new_owner } => {
            if !sender_is_owner(pool, &info.sender) {
                return Err(ContractError::Unauthorized {  });
            }
            pool.pending_owner = Some(new_owner);
        },
        OwnershipAction::AcceptOwnership => {
            let pending = match &pool.pending_owner {
                Some(pending) => *pending == info.sender,
                None => false,
            };
            if !pending {
                return Err(ContractError::Unauthorized {  });
            }
            pool.config.owner = Some(info.sender.clone());
            pool.pending_owner = None;
        },
        OwnershipAction::RenounceOwnership => {
            if !sender_is_owner(pool, &info.sender) {
                return Err(ContractError::Unauthorized {  });
            }
            pool.config.owner = None;
            pool.pending_owner = None;
        },
    }
    let mut attributes: Vec<Attribute> = Vec::new();
    push_attribute(&mut attributes, "action", "update_ownership");
    push_attribute(&mut attributes, "sender", info.sender.as_str());
    assert(attributes_view(attributes@) =~= ownership_attributes(*info));
    Ok(Response { messages: Vec::new(), attributes })
}

/// The subunit of the ticket token whose symbol, in lower case, is `lowered`.
pub open spec fn subunit_text(lowered: Seq<char>) -> Seq<char> {
    seq!['u'] + lowered
}

/// The denomination of the ticket token with the subunit `subunit` that the
/// pool at `address` issues.
pub open spec fn denom_text(subunit: Seq<char>, address: Seq<char>) -> Seq<char> {
    subunit + seq!['-'] + address
}

/// The subunit of the ticket token: `u`, then the symbol in lower case.
pub fn ticket_subunit(lowered_symbol: &str) -> (r: String)
    ensures
        r@ == subunit_text(lowered_symbol@),
{
    proof {
        reveal_strlit("u");
    }
    let mut r = String::from_str("u");
    r.append(lowered_symbol);
    assert(r@ =~= subunit_text(lowered_symbol@));
    r
}

/// The denomination of the ticket token: its subunit, a hyphen, and the
/// address of the pool that issues it.
pub fn ticket_denom(subunit: &str, address: &str) -> (r: String)
    ensures
        r@ == denom_text(subunit@, address@),
{
    proof {
        reveal_strlit("-");
    }
    let mut r = String::from_str(subunit);
    r.append("-");
    r.append(address);
    assert(r@ =~= denom_text(subunit@, address@));
    r
}

/// Whether `pool` is the pool that `msg` asks for, newly made at
/// `env.contract_address` for the owner `info.sender`: open for sale, with
/// nothing sold, burned, refunded or won.
pub open spec fn opened(pool: Pool, env: Env, info: MessageInfo, msg: InstantiateMsg) -> bool {
    &&& pool.config == (Config {
        owner: Some(info.sender),
        ticket_symbol: msg.ticket_token_symbol,
        core_denom: msg.core_denom,
        validator_address: msg.validator_address,
        total_tickets: msg.total_tickets,
        max_tickets_per_user: msg.max_tickets_per_user,
        ticket_price: msg.ticket_price,
        draw_state: DrawState::TicketSalesOpen,
        winner: None,
        undelegation_done_timestamp: None,
        accumulated_rewards: 0,
        bonus_rewards: 0,
    })
    &&& pool.ticket_denom@ == denom_text(
        subunit_text(lowercase(msg.ticket_token_symbol@)),
        env.contract_address@,
    )
    &&& pool.ticket_holders@ == Map::<Seq<char>, u128>::empty()
    &&& pool.ticket_holders.total() == 0
    &&& pool.claims@ == Map::<Seq<char>, u128>::empty()
    &&& pool.claims.total() == 0
    &&& pool.total_tickets_sold == 0
    &&& pool.total_tickets_burned == 0
    &&& pool.accumulated_rewards_at_undelegation is None
    &&& !pool.rewards_paid
    &&& pool.pending_owner is None
}

/// Whether `message` issues the ticket token of the pool that `msg` asks
/// for: a token of the pool's own, with the symbol asked for, six decimal
/// places and no initial supply, that can be minted and burned, with no burn
/// rate and no commission.
pub open spec fn issues_tickets(message: OutboundMsg, env: Env, msg: InstantiateMsg) -> bool {
    &&& message is Issue
    &&& message->issuer == env.contract_address
    &&& message->symbol == msg.ticket_token_symbol
    &&& message->subunit@ == subunit_text(lowercase(msg.ticket_token_symbol@))
    &&& message->precision == TICKET_PRECISION
    &&& message->initial_amount == 0
    &&& message->description@ == "Draft tickets for Coreum No-Loss Draft on coreum.fun"@
    &&& message->features@ == seq![Feature::Minting, Feature::Burning]
    &&& message->burn_rate@ == "0"@
    &&& message->send_commission_rate@ == "0"@
    &&& message->uri@ == "https://coreum.fun"@
    &&& message->uri_hash@ == ""@
}

/// The reason for which a pool is not made, if it is not: a pool has tickets,
/// a price for them, and room for at least one ticket with each holder.
pub open spec fn instantiate_rejection(msg: InstantiateMsg) -> Option<ContractError> {
    if msg.total_tickets == 0 {
        Some(ContractError::InvalidTicketAmount {  })
    } else if msg.ticket_price == 0 {
        Some(ContractError::InvalidTicketPrice {  })
    } else if msg.max_tickets_per_user == 0 {
        Some(ContractError::InvalidTicketAmount {  })
    } else {
        None
    }
}

/// The record of the making of a pool: its owner and what was asked for.
pub open spec fn instantiate_attributes(info: MessageInfo, msg: InstantiateMsg) -> Record {
    seq![
        ("method"@, "instantiate"@),
        ("owner"@, info.sender@),
        ("ticket_token_symbol"@, msg.ticket_token_symbol@),
        ("validator_address"@, msg.validator_address@),
        ("total_tickets"@, decimal_text(msg.total_tickets as nat)),
        ("ticket_price"@, decimal_text(msg.ticket_price as nat)),
    ]
}

/// Makes a pool. A pool without tickets, with tickets for nothing or with no
/// ticket allowed to a holder is rejected; otherwise the pool is opened and
/// its ticket token is issued.
pub fn instantiate(env: &Env, info: &MessageInfo, msg: InstantiateMsg) -> (r: Result<
    (Pool, Response),
    ContractError,
>)
    ensures
        match r {
            Ok((pool, response)) => {
                &&& instantiate_rejection(msg) is None
                &&& msg.total_tickets != 0
                &&& msg.ticket_price != 0
                &&& msg.max_tickets_per_user != 0
                &&& opened(pool, *env, *info, msg)
                &&& pool.wf()
                &&& pool.balanced()
                &&& pool.phase_agrees()
                &&& response.messages@.len() == 1
                &&& issues_tickets(response.messages@[0], *env, msg)
                &&& attributes_view(response.attributes@) == instantiate_attributes(*info, msg)
            },
            Err(e) => instantiate_rejection(msg) == Some(e),
        },
{
    if msg.total_tickets == 0 {
        return Err(ContractError::InvalidTicketAmount {  });
    }
    if msg.ticket_price == 0 {
        return Err(ContractError::InvalidTicketPrice {  });
    }
    if msg.max_tickets_per_user == 0 {
        return Err(ContractError::InvalidTicketAmount {  });
    }
    let lowered = str_to_lowercase(msg.ticket_token_symbol.as_str());
    let subunit = ticket_subunit(lowered.as_str());
    let denom = ticket_denom(subunit.as_str(), env.contract_address.as_str());
    let mut features: Vec<Feature> = Vec::new();
    features.push(Feature::Minting);
    features.push(Feature::Burning);
    assert(features@ =~= seq![Feature::Minting, Feature::Burning]);
    let issue_token_msg = OutboundMsg::Issue {
        issuer: env.contract_address.clone(),
        symbol: msg.ticket_token_symbol.clone(),
        subunit,
        precision: TICKET_PRECISION,
        initial_amount: 0,
        description: String::from_str("Draft tickets for Coreum No-Loss Draft on coreum.fun"),
        features,
        burn_rate: String::from_str("0"),
        send_commission_rate: String::from_str("0"),
        uri: String::from_str("https://coreum.fun"),
        uri_hash: String::from_str(""),
    };
    let mut attributes: Vec<Attribute> = Vec::new();
    push_attribute(&mut attributes, "method", "instantiate");
    push_attribute(&mut attributes, "owner", info.sender.as_str());
    push_attribute(&mut attributes, "ticket_token_symbol", msg.ticket_token_symbol.as_str());
    push_attribute(&mut attributes, "validator_address", msg.validator_address.as_str());
    push_number(&mut attributes, "total_tickets", msg.total_tickets);
    push_number(&mut attributes, "ticket_price", msg.ticket_price);
    assert(attributes_view(attributes@) =~= instantiate_attributes(*info, msg));
    let config = Config {
        owner: Some(info.sender.clone()),
        ticket_symbol: msg.ticket_token_symbol,
        core_denom: msg.core_denom,
        validator_address: msg.validator_address,
        total_tickets: msg.total_tickets,
        max_tickets_per_user: msg.max_tickets_per_user,
        ticket_price: msg.ticket_price,
        draw_state: DrawState::TicketSalesOpen,
        winner: None,
        undelegation_done_timestamp: None,
        accumulated_rewards: 0,
        bonus_rewards: 0,
    };
    let pool = Pool {
        config,
        ticket_denom: denom,
        ticket_holders: Ledger::new(),
        claims: Ledger::new(),
        total_tickets_sold: 0,
        total_tickets_burned: 0,
        accumulated_rewards_at_undelegation: None,
        rewards_paid: false,
        pending_owner: None,
    };
    let mut messages: Vec<OutboundMsg> = Vec::new();
    messages.push(issue_token_msg);
    assert(0 * msg.ticket_price == 0);
    Ok((pool, Response { messages, attributes }))
}

/// What `execute` is to do for `msg`: what the handler of that kind of
/// message does. `held` is the caller's balance of the ticket token as it was
/// read, or the error of asking for it or of reading it; only a purchase
/// looks at it.
pub open spec fn execute_meets(
    r: Result<Response, ContractError>,
    old: Pool,
    new: Pool,
    env: Env,
    info: MessageInfo,
    msg: ExecuteMsg,
    facilities: Facilities,
    held: Result<u128, StdError>,
) -> bool {
    match msg {
        ExecuteMsg::BuyTicket { number_of_tickets } => buy_meets(
            r,
            old,
            new,
            env,
            info,
            number_of_tickets,
            held,
        ),
        ExecuteMsg::SelectWinnerAndUndelegate { winner_address } => meets(
            r,
            old,
            new,
            select_rejection(
                old,
                env,
                info,
                winner_address@,
                facilities.delegation_rewards,
                facilities.delegation,
            ),
            select_effect(old, new, env, winner_address, reported(facilities.delegation_rewards)),
            select_messages(old, staked(facilities.delegation)),
            select_attributes(
                old,
                env,
                winner_address@,
                reported(facilities.delegation_rewards),
            ),
        ),
        ExecuteMsg::SendFundsToWinner {  } => meets(
            r,
            old,
            new,
            payout_rejection(old, env, info),
            new == (Pool { rewards_paid: true, ..old }),
            payout_messages(old),
            payout_attributes(old),
        ),
        ExecuteMsg::BurnTickets { number_of_tickets } => meets(
            r,
            old,
            new,
            burn_rejection(old, env, info, number_of_tickets),
            burn_effect(old, new, env, info, number_of_tickets),
            burn_messages(old, info, number_of_tickets),
            burn_attributes(old, info, number_of_tickets),
        ),
        ExecuteMsg::AddBonusRewardToThePool { amount } => meets(
            r,
            old,
            new,
            bonus_rejection(old, info, amount),
            new == (Pool {
                config: Config {
                    bonus_rewards: (old.config.bonus_rewards + amount) as u128,
                    ..old.config
                },
                ..old
            }),
            Seq::<OutboundMsg>::empty(),
            bonus_attributes(info, amount),
        ),
        ExecuteMsg::UpdateDrawState { new_state } => meets(
            r,
            old,
            new,
            owner_rejection(old, info),
            new == (Pool { config: Config { draw_state: new_state, ..old.config }, ..old }),
            Seq::<OutboundMsg>::empty(),
            phase_attributes(new_state),
        ),
        ExecuteMsg::SendFunds { recipient, amount } => meets(
            r,
            old,
            new,
            owner_rejection(old, info),
            new == old,
            seq![
                OutboundMsg::Send {
                    to_address: recipient,
                    amount: Coin { denom: old.config.core_denom, amount },
                },
            ],
            send_attributes(recipient@, amount),
        ),
        ExecuteMsg::SetUndelegationTimestamp { timestamp } => meets(
            r,
            old,
            new,
            deadline_rejection(old, info),
            new == (Pool {
                config: Config { undelegation_done_timestamp: Some(timestamp), ..old.config },
                ..old
            }),
            Seq::<OutboundMsg>::empty(),
            deadline_attributes(timestamp),
        ),
        ExecuteMsg::TransferTokenAdmin { new_admin } => meets(
            r,
            old,
            new,
            owner_rejection(old, info),
            new == old,
            seq![
                OutboundMsg::TransferAdmin {
                    sender: env.contract_address,
                    account: new_admin,
                    denom: old.ticket_denom,
                },
            ],
            admin_attributes(new_admin@),
        ),
        ExecuteMsg::UpdateOwnership(action) => meets(
            r,
            old,
            new,
            ownership_rejection(old, info, action),
            ownership_effect(old, new, info, action),
            Seq::<OutboundMsg>::empty(),
            ownership_attributes(info),
        ),
    }
}

/// Whether the winner and the rewards written down for the winner are the
/// same in `new` as in `old`, and what was paid out stays paid out.
pub open spec fn same_settlement(old: Pool, new: Pool) -> bool {
    &&& new.config.winner == old.config.winner
    &&& new.config.accumulated_rewards == old.config.accumulated_rewards
    &&& new.accumulated_rewards_at_undelegation == old.accumulated_rewards_at_undelegation
    &&& old.rewards_paid ==> new.rewards_paid
}

/// Handles a call: hands `msg` to the handler of its kind. `facilities` is
/// what the staking facility and the token facility answered for this call.
/// A rejected call leaves the pool as it was.
pub fn execute(
    pool: &mut Pool,
    env: &Env,
    info: &MessageInfo,
    msg: ExecuteMsg,
    facilities: Facilities,
) -> (r: Result<Response, ContractError>)
    requires
        old(pool).wf(),
    ensures
        exists|held: Result<u128, StdError>|
            read_as(facilities.ticket_balance, held) && #[trigger] execute_meets(
                r,
                *old(pool),
                *final(pool),
                *env,
                *info,
                msg,
                facilities,
                held,
            ),
        final(pool).wf(),
        old(pool).balanced() ==> final(pool).balanced(),
        r is Err ==> *final(pool) == *old(pool),
        final(pool).config.ticket_price == old(pool).config.ticket_price,
        old(pool).config.winner is Some ==> same_settlement(*old(pool), *final(pool)),
{
    let ghost unread = a_reading(facilities.ticket_balance);
    proof {
        lemma_a_reading(facilities.ticket_balance);
    }
    let Facilities { ticket_balance, delegation_rewards, delegation, token_holders: _ } =
        facilities;
    match msg {
        ExecuteMsg::BuyTicket { number_of_tickets } => {
            let held = match ticket_balance {
                Ok(text) => parse_uint128(text.as_str()),
                Err(e) => Err(e),
            };
            let ghost seen = held;
            assert(read_as(facilities.ticket_balance, seen));
            let r = buy_ticket(pool, env, info, number_of_tickets, held);
            assert(execute_meets(r, *old(pool), *pool, *env, *info, msg, facilities, seen));
            r
        },
        ExecuteMsg::SelectWinnerAndUndelegate { winner_address } => {
            let r = execute_select_winner_and_undelegate(
                pool,
                env,
                info,
                winner_address,
                delegation_rewards,
                delegation,
            );
            assert(execute_meets(r, *old(pool), *pool, *env, *info, msg, facilities, unread));
            r
        },
        ExecuteMsg::SendFundsToWinner {  } => {
            let r = execute_send_funds_to_winner(pool, env, info);
            assert(execute_meets(r, *old(pool), *pool, *env, *info, msg, facilities, unread));
            r
        },
        ExecuteMsg::BurnTickets { number_of_tickets } => {
            let r = execute_burn_tickets(pool, env, info, number_of_tickets);
            assert(execute_meets(r, *old(pool), *pool, *env, *info, msg, facilities, unread));
            r
        },
        ExecuteMsg::AddBonusRewardToThePool { amount } => {
            let r = execute_add_bonus_reward(pool, info, amount);
            assert(execute_meets(r, *old(pool), *pool, *env, *info, msg, facilities, unread));
            r
        },
        ExecuteMsg::UpdateDrawState { new_state } => {
            let r = execute_update_draw_state(pool, info, new_state);
            assert(execute_meets(r, *old(pool), *pool, *env, *info, msg, facilities, unread));
            r
        },
        ExecuteMsg::SendFunds { recipient, amount } => {
            let r = execute_send_funds(pool, info, recipient, amount);
            assert(execute_meets(r, *old(pool), *pool, *env, *info, msg, facilities, unread));
            r
        },
        ExecuteMsg::SetUndelegationTimestamp { timestamp } => {
            let r = execute_set_undelegation_timestamp(pool, info, timestamp);
            assert(execute_meets(r, *old(pool), *pool, *env, *info, msg, facilities, unread));
            r
        },
        ExecuteMsg::TransferTokenAdmin { new_admin } => {
            let r = execute_transfer_token_admin(pool, env, info, new_admin);
            assert(execute_meets(r, *old(pool), *pool, *env, *info, msg, facilities, unread));
            r
        },
        ExecuteMsg::UpdateOwnership(action) => {
            let r = execute_update_ownership(pool, info, action);
            assert(execute_meets(r, *old(pool), *pool, *env, *info, msg, facilities, unread));
            r
        },
    }
}

} // verus!
