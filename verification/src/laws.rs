//! What holds of the pool over more than one call, stated over the same
//! functions that the contracts of the calls use.

use crate::chain::{
    first_amount, reported, Coin, Env, Facilities, MessageInfo, OutboundMsg, Response,
    TICKET_UNIT, UNDELEGATION_PERIOD_SECONDS,
};
use crate::query::rewards_total;
use crate::contract::{
    bonus_rejection, burn_effect, burn_messages, burn_rejection, buy_effect, buy_messages,
    buy_rejection, execute_meets, payout_messages, payout_rejection, same_settlement,
    select_rejection, whole_tickets,
};
use crate::state::Config;
use crate::msg::ExecuteMsg;
use crate::error::ContractError;
use crate::ledger::lemma_amount_bounds;
use crate::state::{DrawState, Pool};
use cosmwasm_std::StdError;
use vstd::prelude::*;

verus! {

/// In a pool whose books agree, no more tickets are sold than there are, and
/// no more are burned than were sold.
pub proof fn lemma_counters_in_order(pool: Pool)
    requires
        pool.balanced(),
    ensures
        pool.total_tickets_sold <= pool.config.total_tickets,
        pool.total_tickets_burned <= pool.total_tickets_sold,
{
}

/// An accepted purchase keeps the books in agreement.
pub proof fn lemma_buy_keeps_books(
    old: Pool,
    new: Pool,
    info: MessageInfo,
    n: u128,
    held: Result<u128, StdError>,
)
    requires
        old.balanced(),
        buy_rejection(old, info, n, held) is None,
        buy_effect(old, new, info, n),
    ensures
        new.balanced(),
{
}

/// An accepted burn keeps the books in agreement.
pub proof fn lemma_burn_keeps_books(old: Pool, new: Pool, env: Env, info: MessageInfo, n: u128)
    requires
        old.wf(),
        old.balanced(),
        burn_rejection(old, env, info, n) is None,
        burn_effect(old, new, env, info, n),
    ensures
        new.balanced(),
{
    lemma_amount_bounds(old.ticket_holders.listing(), info.sender@);
    assert((old.total_tickets_burned + n) * old.config.ticket_price == old.total_tickets_burned
        * old.config.ticket_price + n * old.config.ticket_price) by (nonlinear_arith);
}

/// After an accepted purchase the buyer holds no more tickets of the token
/// than one holder may hold: what the token facility reported before, and the
/// tickets bought.
pub proof fn lemma_buy_respects_cap(pool: Pool, info: MessageInfo, n: u128, units: u128)
    requires
        buy_rejection(pool, info, n, Ok(units)) is None,
    ensures
        whole_tickets(units) + n <= pool.config.max_tickets_per_user,
{
}

/// Where the pool's own count of a buyer's tickets is no more than what the
/// token facility reports, that count stays within the limit after an
/// accepted purchase.
pub proof fn lemma_buy_respects_cap_in_ledger(
    old: Pool,
    new: Pool,
    info: MessageInfo,
    n: u128,
    units: u128,
)
    requires
        buy_rejection(old, info, n, Ok(units)) is None,
        buy_effect(old, new, info, n),
        old.ticket_holders.amount(info.sender@) <= whole_tickets(units),
    ensures
        new.ticket_holders.amount(info.sender@) <= new.config.max_tickets_per_user,
{
}

/// The purchase that sells the last ticket closes the sale in the same call;
/// so does the purchase of all tickets at once.
pub proof fn lemma_last_ticket_closes_sale(
    old: Pool,
    new: Pool,
    info: MessageInfo,
    n: u128,
    held: Result<u128, StdError>,
)
    requires
        buy_rejection(old, info, n, held) is None,
        buy_effect(old, new, info, n),
        old.total_tickets_sold + n == old.config.total_tickets,
    ensures
        new.config.draw_state == DrawState::TicketsSoldOutAccumulationInProgress,
        new.total_tickets_sold == new.config.total_tickets,
{
}

/// A purchase is accepted or rejected, and does what it does, by whether the
/// payment covers the price: what is paid beyond the price changes nothing
/// and is not sent back.
pub proof fn lemma_overpayment_is_kept(
    pool: Pool,
    env: Env,
    exact: MessageInfo,
    over: MessageInfo,
    n: u128,
    held: Result<u128, StdError>,
)
    requires
        exact.sender == over.sender,
        n * pool.config.ticket_price <= u128::MAX,
        first_amount(exact.funds@, pool.config.core_denom@) == Some(
            (n * pool.config.ticket_price) as u128,
        ),
        first_amount(over.funds@, pool.config.core_denom@) is Some,
        first_amount(over.funds@, pool.config.core_denom@)->0 >= n * pool.config.ticket_price,
    ensures
        buy_rejection(pool, over, n, held) == buy_rejection(pool, exact, n, held),
        buy_messages(pool, env, over, n) == buy_messages(pool, env, exact, n),
        forall|new: Pool| buy_effect(pool, new, over, n) == buy_effect(pool, new, exact, n),
{
}

/// A purchase whose payment does not cover the price is rejected.
pub proof fn lemma_underpayment_is_rejected(
    pool: Pool,
    info: MessageInfo,
    n: u128,
    held: Result<u128, StdError>,
)
    requires
        first_amount(info.funds@, pool.config.core_denom@) is Some,
        first_amount(info.funds@, pool.config.core_denom@)->0 < n * pool.config.ticket_price,
    ensures
        buy_rejection(pool, info, n, held) is Some,
        n * pool.config.ticket_price <= u128::MAX ==> buy_rejection(pool, info, n, held) == Some(
            ContractError::InsufficientFunds {
                required: (n * pool.config.ticket_price) as u128,
                provided: first_amount(info.funds@, pool.config.core_denom@)->0,
            },
        ),
{
}

/// A burn at the deadline or after it is not rejected for being early: the
/// deadline itself is late enough.
pub proof fn lemma_burn_at_deadline(pool: Pool, env: Env, info: MessageInfo, n: u128)
    requires
        pool.config.undelegation_done_timestamp is Some,
        env.block_time >= pool.config.undelegation_done_timestamp->0,
    ensures
        !(burn_rejection(pool, env, info, n) matches Some(
            ContractError::UndelegationPeriodNotCompleted { .. },
        )),
{
}

/// A burn before the deadline, in a round that waits for its stake, is
/// rejected for being early, whoever asks for it, with whatever funds and for
/// however many tickets.
pub proof fn lemma_burn_before_deadline(pool: Pool, env: Env, info: MessageInfo, n: u128)
    requires
        pool.config.draw_state == DrawState::WinnerSelectedUndelegationInProcess,
        pool.config.undelegation_done_timestamp is Some,
        env.block_time < pool.config.undelegation_done_timestamp->0,
    ensures
        burn_rejection(pool, env, info, n) == Some(
            ContractError::UndelegationPeriodNotCompleted {
                current_timestamp: env.block_time,
                undelegation_timestamp: pool.config.undelegation_done_timestamp->0,
            },
        ),
{
}

/// The burn that burns the last ticket finishes the round: all tickets sold
/// are burned, no holder holds a ticket by the pool's count, and the refunds
/// paid are the price of all tickets sold.
pub proof fn lemma_last_burn_finishes_round(
    old: Pool,
    new: Pool,
    env: Env,
    info: MessageInfo,
    n: u128,
)
    requires
        old.wf(),
        old.balanced(),
        burn_rejection(old, env, info, n) is None,
        burn_effect(old, new, env, info, n),
        new.total_tickets_burned == new.total_tickets_sold,
    ensures
        new.config.draw_state == DrawState::DrawFinished,
        new.ticket_holders.total() == 0,
        new.claims.total() == new.total_tickets_sold * new.config.ticket_price,
{
    lemma_burn_keeps_books(old, new, env, info, n);
}

/// A round pays out once: after a payout every further payout is rejected,
/// whoever asks for it and whenever.
pub proof fn lemma_payout_happens_once(
    old: Pool,
    new: Pool,
    env: Env,
    info: MessageInfo,
    later: Env,
    again: MessageInfo,
)
    requires
        payout_rejection(old, env, info) is None,
        new == (Pool { rewards_paid: true, ..old }),
    ensures
        payout_rejection(new, later, again) is Some,
{
}

/// The payout is one message: the rewards that were written down when the
/// winner was named, and the bonus as it stands at the payout, go to the
/// winner in the pool's base asset.
pub proof fn lemma_payout_is_rewards_and_bonus(pool: Pool, env: Env, info: MessageInfo)
    requires
        payout_rejection(pool, env, info) is None,
    ensures
        pool.config.winner is Some,
        payout_messages(pool).len() == 1,
        payout_messages(pool)[0] is Send,
        payout_messages(pool)[0]->to_address == pool.config.winner->0,
        payout_messages(pool)[0]->Send_amount.denom == pool.config.core_denom,
        payout_messages(pool)[0]->Send_amount.amount == pool.config.accumulated_rewards
            + pool.config.bonus_rewards,
{
}

/// An accepted burn answers with one message and no other: the refund of the
/// price of the tickets, in the pool's base asset, to who burned them.
pub proof fn lemma_burn_sends_the_refund_alone(pool: Pool, info: MessageInfo, n: u128)
    ensures
        burn_messages(pool, info, n) == seq![
            OutboundMsg::Send {
                to_address: info.sender,
                amount: Coin {
                    denom: pool.config.core_denom,
                    amount: (n * pool.config.ticket_price) as u128,
                },
            },
        ],
{
}

/// Who buys tickets and later burns as many gets back what the tickets cost:
/// the refund of the burn is the amount that the purchase staked, as long as
/// the price of a ticket is the same, which no call changes.
pub proof fn lemma_refund_is_price_paid(
    bought: Pool,
    burned: Pool,
    buy_env: Env,
    burn_env: Env,
    info: MessageInfo,
    n: u128,
)
    requires
        burned.config.ticket_price == bought.config.ticket_price,
        burned.config.core_denom == bought.config.core_denom,
    ensures
        buy_messages(bought, buy_env, info, n)[0] is Delegate,
        burn_messages(burned, info, n).len() == 1,
        burn_messages(burned, info, n)[0] is Send,
        burn_messages(burned, info, n)[0]->to_address == info.sender,
        burn_messages(burned, info, n)[0]->Send_amount == buy_messages(
            bought,
            buy_env,
            info,
            n,
        )[0]->Delegate_amount,
{
}

/// Every call keeps the books in agreement, whether it is accepted or
/// rejected: after every call no more tickets are sold than there are, and
/// no more are burned than were sold.
pub proof fn lemma_every_call_keeps_books(
    r: Result<Response, ContractError>,
    old: Pool,
    new: Pool,
    env: Env,
    info: MessageInfo,
    msg: ExecuteMsg,
    facilities: Facilities,
    held: Result<u128, StdError>,
)
    requires
        old.wf(),
        old.balanced(),
        execute_meets(r, old, new, env, info, msg, facilities, held),
    ensures
        new.balanced(),
        new.total_tickets_sold <= new.config.total_tickets,
        new.total_tickets_burned <= new.total_tickets_sold,
{
    match msg {
        ExecuteMsg::BurnTickets { number_of_tickets } => {
            if r is Ok {
                lemma_burn_keeps_books(old, new, env, info, number_of_tickets);
            }
        },
        _ => {},
    }
}

/// Once a winner is named, no call changes the winner or the rewards that
/// were written down for the winner, and what is paid out stays paid out.
pub proof fn lemma_settlement_is_kept(
    r: Result<Response, ContractError>,
    old: Pool,
    new: Pool,
    env: Env,
    info: MessageInfo,
    msg: ExecuteMsg,
    facilities: Facilities,
    held: Result<u128, StdError>,
)
    requires
        execute_meets(r, old, new, env, info, msg, facilities, held),
        old.config.winner is Some,
    ensures
        same_settlement(old, new),
{
}

/// No call changes the price of a ticket or the asset that it is paid in.
pub proof fn lemma_price_is_kept(
    r: Result<Response, ContractError>,
    old: Pool,
    new: Pool,
    env: Env,
    info: MessageInfo,
    msg: ExecuteMsg,
    facilities: Facilities,
    held: Result<u128, StdError>,
)
    requires
        execute_meets(r, old, new, env, info, msg, facilities, held),
    ensures
        new.config.ticket_price == old.config.ticket_price,
        new.config.core_denom == old.config.core_denom,
{
}

/// Every call but the setting of the phase by hand keeps the phase in
/// agreement with what is written down: the winner and the rewards for the
/// winner are there from the naming of the winner on and not before, an open
/// round has no rewards, winner or deadline, and a finished round has every
/// ticket burned.
pub proof fn lemma_phase_agreement_is_kept(
    r: Result<Response, ContractError>,
    old: Pool,
    new: Pool,
    env: Env,
    info: MessageInfo,
    msg: ExecuteMsg,
    facilities: Facilities,
    held: Result<u128, StdError>,
)
    requires
        old.phase_agrees(),
        !(msg is UpdateDrawState),
        execute_meets(r, old, new, env, info, msg, facilities, held),
    ensures
        new.phase_agrees(),
{
}

/// Every call leaves the ledgers of the pool in order.
pub proof fn lemma_every_call_keeps_order(
    r: Result<Response, ContractError>,
    old: Pool,
    new: Pool,
    env: Env,
    info: MessageInfo,
    msg: ExecuteMsg,
    facilities: Facilities,
    held: Result<u128, StdError>,
)
    requires
        old.wf(),
        execute_meets(r, old, new, env, info, msg, facilities, held),
    ensures
        new.wf(),
{
}

/// One call of a run: what was asked, in which surroundings, and how the
/// call ended.
pub struct Call {
    pub env: Env,
    pub info: MessageInfo,
    pub msg: ExecuteMsg,
    pub facilities: Facilities,
    pub held: Result<u128, StdError>,
    pub result: Result<Response, ContractError>,
}

/// Whether the call `calls[i]` leads from the pool `pools[i]` to the pool
/// `pools[i + 1]`.
pub open spec fn leads_on(pools: Seq<Pool>, calls: Seq<Call>, i: int) -> bool {
    execute_meets(
        calls[i].result,
        pools[i],
        pools[i + 1],
        calls[i].env,
        calls[i].info,
        calls[i].msg,
        calls[i].facilities,
        calls[i].held,
    )
}

/// Whether `pools` are the pools that the calls `calls` lead through, one
/// after the other, from `pools[0]` on.
pub open spec fn is_run(pools: Seq<Pool>, calls: Seq<Call>) -> bool {
    &&& pools.len() == calls.len() + 1
    &&& forall|i: int| 0 <= i < calls.len() ==> #[trigger] leads_on(pools, calls, i)
}

/// In every run of calls from a pool whose books agree, the books agree
/// after every call: at no point are more tickets sold than there are, or
/// more burned than were sold.
pub proof fn lemma_books_agree_throughout(pools: Seq<Pool>, calls: Seq<Call>, n: int)
    requires
        is_run(pools, calls),
        pools[0].wf(),
        pools[0].balanced(),
        0 <= n < pools.len(),
    ensures
        pools[n].wf(),
        pools[n].balanced(),
        pools[n].total_tickets_sold <= pools[n].config.total_tickets,
        pools[n].total_tickets_burned <= pools[n].total_tickets_sold,
    decreases n,
{
    if n > 0 {
        lemma_books_agree_throughout(pools, calls, n - 1);
        let c = calls[n - 1];
        assert(leads_on(pools, calls, n - 1));
        lemma_every_call_keeps_order(
            c.result,
            pools[n - 1],
            pools[n],
            c.env,
            c.info,
            c.msg,
            c.facilities,
            c.held,
        );
        lemma_every_call_keeps_books(
            c.result,
            pools[n - 1],
            pools[n],
            c.env,
            c.info,
            c.msg,
            c.facilities,
            c.held,
        );
    }
}

/// A second naming of a winner is rejected and leaves the winner and the
/// rewards as they are written down, in whatever phase the round is.
pub proof fn lemma_winner_is_named_once(
    pool: Pool,
    env: Env,
    info: MessageInfo,
    winner: Seq<char>,
    facilities: Facilities,
)
    requires
        pool.config.winner is Some,
    ensures
        select_rejection(
            pool,
            env,
            info,
            winner,
            facilities.delegation_rewards,
            facilities.delegation,
        ) is Some,
{
}

/// In every run of calls, whatever they are, a winner once named stays the
/// winner, with the rewards that were written down at the naming.
pub proof fn lemma_winner_stays_throughout(pools: Seq<Pool>, calls: Seq<Call>, m: int, n: int)
    requires
        is_run(pools, calls),
        0 <= m <= n < pools.len(),
        pools[m].config.winner is Some,
    ensures
        same_settlement(pools[m], pools[n]),
    decreases n - m,
{
    if m < n {
        lemma_winner_stays_throughout(pools, calls, m, n - 1);
        let c = calls[n - 1];
        assert(leads_on(pools, calls, n - 1));
        lemma_settlement_is_kept(
            c.result,
            pools[n - 1],
            pools[n],
            c.env,
            c.info,
            c.msg,
            c.facilities,
            c.held,
        );
    }
}

/// In every run of calls in which the phase is never set by hand, the phase
/// stays in agreement with what is written down.
pub proof fn lemma_phase_agrees_throughout(pools: Seq<Pool>, calls: Seq<Call>, n: int)
    requires
        is_run(pools, calls),
        forall|i: int| 0 <= i < calls.len() ==> !((#[trigger] calls[i]).msg is UpdateDrawState),
        0 <= n < pools.len(),
        pools[0].phase_agrees(),
    ensures
        pools[n].phase_agrees(),
    decreases n,
{
    if n > 0 {
        lemma_phase_agrees_throughout(pools, calls, n - 1);
        let c = calls[n - 1];
        assert(leads_on(pools, calls, n - 1));
        lemma_phase_agreement_is_kept(
            c.result,
            pools[n - 1],
            pools[n],
            c.env,
            c.info,
            c.msg,
            c.facilities,
            c.held,
        );
    }
}

/// A purchase of no ticket is never accepted, and neither is a burn of no
/// ticket: where no other test rejects them, they are rejected for their
/// number of tickets.
pub proof fn lemma_no_ticket_is_rejected(
    pool: Pool,
    env: Env,
    info: MessageInfo,
    held: Result<u128, StdError>,
)
    ensures
        buy_rejection(pool, info, 0, held) is Some,
        burn_rejection(pool, env, info, 0) is Some,
{
}

/// Whether a round can be burned in at the time `now`: it burns tickets, or
/// it waits for its stake and its deadline, where it has one, is reached.
pub open spec fn burning_allowed(config: Config, now: u64) -> bool {
    ||| config.draw_state == DrawState::UndelegationCompletedTokensCanBeBurned
    ||| config.draw_state == DrawState::WinnerSelectedUndelegationInProcess && (
    config.undelegation_done_timestamp is None || now >= config.undelegation_done_timestamp->0)
}

/// Whether the numbers of a pool stay within 128 bits whatever is sold of
/// it: the units and the price of all its tickets.
pub open spec fn within_bounds(pool: Pool) -> bool {
    &&& pool.config.total_tickets * TICKET_UNIT <= u128::MAX
    &&& pool.config.total_tickets * pool.config.ticket_price <= u128::MAX
}

/// No refund to a holder is more than what was refunded in all.
pub proof fn lemma_claim_bounded(pool: Pool, address: Seq<char>)
    requires
        pool.wf(),
        pool.balanced(),
    ensures
        pool.claims.amount(address) <= pool.total_tickets_burned * pool.config.ticket_price,
{
    lemma_amount_bounds(pool.claims.listing(), address);
}

/// When a purchase is owed: in an open sale, a purchase of at least one
/// ticket that is paid for, finds the tickets left and keeps the buyer within
/// the limit is accepted, in every pool whose books agree and whose numbers
/// stay within bounds.
pub proof fn lemma_purchase_is_accepted(pool: Pool, info: MessageInfo, n: u128, units: u128)
    requires
        pool.wf(),
        pool.balanced(),
        within_bounds(pool),
        n > 0,
        pool.config.draw_state == DrawState::TicketSalesOpen,
        pool.total_tickets_sold + n <= pool.config.total_tickets,
        first_amount(info.funds@, pool.config.core_denom@) is Some,
        first_amount(info.funds@, pool.config.core_denom@)->0 >= n * pool.config.ticket_price,
        whole_tickets(units) + n <= pool.config.max_tickets_per_user,
    ensures
        buy_rejection(pool, info, n, Ok(units)) is None,
{
    let total = pool.config.total_tickets;
    let price = pool.config.ticket_price;
    assert(n * price <= total * price) by (nonlinear_arith)
        requires
            n <= total,
            price >= 0,
    ;
    assert(n * TICKET_UNIT <= total * TICKET_UNIT) by (nonlinear_arith)
        requires
            n <= total,
    ;
    lemma_amount_bounds(pool.ticket_holders.listing(), info.sender@);
}

/// When a burn is owed: where burning is allowed, a burn of at least one
/// ticket by a holder that holds as many by the pool's count and hands in as
/// many is accepted, in every pool whose books agree and whose numbers stay
/// within bounds.
pub proof fn lemma_burn_is_accepted(pool: Pool, env: Env, info: MessageInfo, n: u128)
    requires
        pool.wf(),
        pool.balanced(),
        within_bounds(pool),
        n > 0,
        burning_allowed(pool.config, env.block_time),
        pool.ticket_holders.amount(info.sender@) >= n,
        first_amount(info.funds@, pool.ticket_denom@) is Some,
        first_amount(info.funds@, pool.ticket_denom@)->0 >= n * TICKET_UNIT,
    ensures
        burn_rejection(pool, env, info, n) is None,
{
    let total = pool.config.total_tickets;
    let price = pool.config.ticket_price;
    let burned = pool.total_tickets_burned;
    lemma_amount_bounds(pool.ticket_holders.listing(), info.sender@);
    lemma_claim_bounded(pool, info.sender@);
    assert(burned + n <= total);
    assert(n * price <= total * price) by (nonlinear_arith)
        requires
            n <= total,
            price >= 0,
    ;
    assert(n * TICKET_UNIT <= total * TICKET_UNIT) by (nonlinear_arith)
        requires
            n <= total,
    ;
    assert(burned * price + n * price <= total * price) by (nonlinear_arith)
        requires
            burned + n <= total,
            price >= 0,
            burned >= 0,
            n >= 0,
    ;
}

/// What an accepted burn does to the round: as many more tickets are burned,
/// the burn of the last ticket finishes the round, and any other burn leaves
/// a round that has reached its deadline in the phase of burning.
pub proof fn lemma_burn_moves_the_round(
    old: Pool,
    new: Pool,
    env: Env,
    info: MessageInfo,
    n: u128,
)
    requires
        burn_rejection(old, env, info, n) is None,
        burn_effect(old, new, env, info, n),
    ensures
        new.total_tickets_burned == old.total_tickets_burned + n,
        new.total_tickets_sold == old.total_tickets_sold,
        new.ticket_holders.amount(info.sender@) == old.ticket_holders.amount(info.sender@) - n,
        old.total_tickets_burned + n == old.total_tickets_sold ==> new.config.draw_state
            == DrawState::DrawFinished,
        old.total_tickets_burned + n != old.total_tickets_sold && (old.config.draw_state
            == DrawState::UndelegationCompletedTokensCanBeBurned
            || old.config.undelegation_done_timestamp is Some) ==> new.config.draw_state
            == DrawState::UndelegationCompletedTokensCanBeBurned,
{
}

/// Who buys tickets and later burns as many holds as many as before the
/// purchase and gets back what the purchase staked, if the holder's count and
/// the price are not changed in between.
pub proof fn lemma_buy_then_burn_nets_to_nothing(
    before: Pool,
    bought: Pool,
    later: Pool,
    after: Pool,
    buy_env: Env,
    burn_env: Env,
    info: MessageInfo,
    n: u128,
    held: Result<u128, StdError>,
)
    requires
        buy_rejection(before, info, n, held) is None,
        buy_effect(before, bought, info, n),
        later.ticket_holders.amount(info.sender@) == bought.ticket_holders.amount(info.sender@),
        later.config.ticket_price == bought.config.ticket_price,
        later.config.core_denom == bought.config.core_denom,
        burn_rejection(later, burn_env, info, n) is None,
        burn_effect(later, after, burn_env, info, n),
    ensures
        after.ticket_holders.amount(info.sender@) == before.ticket_holders.amount(info.sender@),
        burn_messages(later, info, n).len() == 1,
        burn_messages(later, info, n)[0]->Send_amount == buy_messages(
            before,
            buy_env,
            info,
            n,
        )[0]->Delegate_amount,
        burn_messages(later, info, n)[0]->Send_amount.amount == n * before.config.ticket_price,
{
}

/// When the naming of a winner is owed: to the owner, in a round that is
/// sold out and has no winner yet, for an address that holds a ticket by the
/// pool's count, where the staking facility answered and the rewards, the
/// bonus and the deadline stay within their bounds.
pub proof fn lemma_naming_is_accepted(
    pool: Pool,
    env: Env,
    info: MessageInfo,
    winner: Seq<char>,
    facilities: Facilities,
)
    requires
        pool.is_owner(info.sender@),
        pool.config.draw_state == DrawState::TicketsSoldOutAccumulationInProgress,
        pool.config.winner is None,
        pool.ticket_holders.amount(winner) > 0,
        facilities.delegation_rewards is Ok,
        facilities.delegation is Ok,
        rewards_total(reported(facilities.delegation_rewards), pool.config.core_denom@)
            + pool.config.bonus_rewards <= u128::MAX,
        env.block_time + UNDELEGATION_PERIOD_SECONDS <= u64::MAX,
    ensures
        select_rejection(
            pool,
            env,
            info,
            winner,
            facilities.delegation_rewards,
            facilities.delegation,
        ) is None,
{
}

/// When the payout is owed: to the owner, in a round that waits for its
/// stake and has reached its deadline, with a winner named, nothing paid out
/// yet and rewards and bonus that fit together into 128 bits. It is then the
/// one transfer of the rewards written down and of the bonus as it stands,
/// whenever that bonus was added, to the winner; and it changes nothing in
/// the pool but that the rewards are paid.
pub proof fn lemma_payout_is_accepted(pool: Pool, env: Env, info: MessageInfo)
    requires
        pool.is_owner(info.sender@),
        pool.config.draw_state == DrawState::WinnerSelectedUndelegationInProcess,
        pool.config.undelegation_done_timestamp is Some ==> env.block_time
            >= pool.config.undelegation_done_timestamp->0,
        pool.config.winner is Some,
        !pool.rewards_paid,
        pool.config.accumulated_rewards + pool.config.bonus_rewards <= u128::MAX,
    ensures
        payout_rejection(pool, env, info) is None,
        payout_messages(pool) == seq![
            OutboundMsg::Send {
                to_address: pool.config.winner->0,
                amount: Coin {
                    denom: pool.config.core_denom,
                    amount: (pool.config.accumulated_rewards + pool.config.bonus_rewards) as u128,
                },
            },
        ],
{
}

/// When an addition to the bonus is owed: in every phase, to whoever sends at
/// least the amount in the pool's base asset, where the bonus stays within
/// 128 bits.
pub proof fn lemma_bonus_is_accepted(pool: Pool, info: MessageInfo, amount: u128)
    requires
        first_amount(info.funds@, pool.config.core_denom@) is Some,
        first_amount(info.funds@, pool.config.core_denom@)->0 >= amount,
        pool.config.bonus_rewards + amount <= u128::MAX,
    ensures
        bonus_rejection(pool, info, amount) is None,
{
}

/// A bonus that is added after the winner is named is part of the payout:
/// the payout of the pool with the bonus added is the rewards written down
/// and the whole bonus.
pub proof fn lemma_late_bonus_is_paid(old: Pool, new: Pool, amount: u128)
    requires
        old.config.bonus_rewards + amount <= u128::MAX,
        new == (Pool {
            config: Config {
                bonus_rewards: (old.config.bonus_rewards + amount) as u128,
                ..old.config
            },
            ..old
        }),
        old.config.accumulated_rewards + old.config.bonus_rewards + amount <= u128::MAX,
    ensures
        new.config.winner == old.config.winner,
        new.config.accumulated_rewards == old.config.accumulated_rewards,
        new.config.draw_state == old.config.draw_state,
        payout_messages(new)[0]->Send_amount.amount == old.config.accumulated_rewards
            + old.config.bonus_rewards + amount,
{
}

} // verus!
