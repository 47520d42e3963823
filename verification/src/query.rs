//! The questions that a pool answers. None of them changes the pool.

use crate::chain::{room, Coin, DecCoin, Facilities, TICKET_UNIT};
use crate::error::ContractError;
use crate::ledger::{lemma_total_take, listing_total, sorted_listing, Ledger};
use crate::msg::{
    AccumulatedRewardsAtUndelegationResponse, AccumulatedRewardsResponse, BalanceResponse,
    BonusRewardsResponse, ClaimInfo, ClaimsResponse, CurrentStateResponse,
    DelegatedAmountResponse, DraftTvlResponse, ParticipantInfo, ParticipantsResponse, QueryMsg,
    QueryResponse, TicketHoldersResponse, TicketsSoldResponse, TokenHolder, TotalBurnedResponse,
    UserTicketsResponse, UserWinChanceResponse, WinnerResponse,
};
use crate::outside::{decimal256_floor, floored, parse_uint128, std_not_found};
use crate::state::{get_draft_tvl, Config, Pool};
use crate::text::{calculate_win_chance, parsed_u128, win_chance_text};
use vstd::prelude::*;

verus! {

/// What one coin of the staking rewards counts for in the denomination
/// `denom`: its whole units, and nothing where it is of another denomination
/// or its whole units do not fit into 128 bits.
pub open spec fn reward_units(coin: DecCoin, denom: Seq<char>) -> nat {
    if coin.denom@ == denom {
        match floored(coin.amount) {
            Some(whole) => whole as nat,
            None => 0,
        }
    } else {
        0
    }
}

/// The staking rewards in the denomination `denom`, each coin cut to its
/// whole units.
pub open spec fn rewards_total(rewards: Seq<DecCoin>, denom: Seq<char>) -> nat
    decreases rewards.len(),
{
    if rewards.len() == 0 {
        0
    } else {
        rewards_total(rewards.drop_last(), denom) + reward_units(rewards.last(), denom)
    }
}

/// The rewards of the first coins are no more than the rewards of all.
pub proof fn lemma_rewards_total_grows(rewards: Seq<DecCoin>, denom: Seq<char>, n: int)
    requires
        0 <= n <= rewards.len(),
    ensures
        rewards_total(rewards.take(n), denom) <= rewards_total(rewards, denom),
    decreases rewards.len(),
{
    if n == rewards.len() {
        assert(rewards.take(n) =~= rewards);
    } else {
        lemma_rewards_total_grows(rewards.drop_last(), denom, n);
        assert(rewards.drop_last().take(n) =~= rewards.take(n));
    }
}

/// The staking rewards that the pool has accrued in its base asset, from the
/// coins `rewards` that the staking facility reports.
pub fn query_accumulated_rewards(pool: &Pool, rewards: &Vec<DecCoin>) -> (r: Result<
    AccumulatedRewardsResponse,
    ContractError,
>)
    ensures
        match r {
            Ok(response) => response.accumulated_rewards == rewards_total(
                rewards@,
                pool.config.core_denom@,
            ),
            Err(e) => e == ContractError::Overflow {  } && rewards_total(
                rewards@,
                pool.config.core_denom@,
            ) > u128::MAX,
        },
{
    let mut accumulated_rewards: u128 = 0;
    let mut i: usize = 0;
    assert(rewards@.take(0) =~= Seq::<DecCoin>::empty());
    while i < rewards.len()
        invariant
            i <= rewards@.len(),
            accumulated_rewards == rewards_total(rewards@.take(i as int), pool.config.core_denom@),
        decreases rewards@.len() - i,
    {
        let dec_coin = &rewards[i];
        let units: u128 = if dec_coin.denom == pool.config.core_denom {
            match decimal256_floor(&dec_coin.amount) {
                Some(whole) => whole,
                None => 0,
            }
        } else {
            0
        };
        proof {
            assert(rewards@.take(i + 1).drop_last() =~= rewards@.take(i as int));
            lemma_rewards_total_grows(rewards@, pool.config.core_denom@, i + 1);
        }
        accumulated_rewards = match accumulated_rewards.checked_add(units) {
            Some(sum) => sum,
            None => { return Err(ContractError::Overflow {  }); },
        };
        i += 1;
    }
    assert(rewards@.take(i as int) =~= rewards@);
    Ok(AccumulatedRewardsResponse { accumulated_rewards })
}

/// A copy of an address that may not be there.
pub fn copy_of(address: &Option<String>) -> (r: Option<String>)
    ensures
        r == *address,
{
    match address {
        Some(a) => Some(a.clone()),
        None => None,
    }
}

/// The pool's configuration.
pub fn query_contract_config(pool: &Pool) -> (r: Config)
    ensures
        r == pool.config,
{
    Config {
        owner: copy_of(&pool.config.owner),
        ticket_symbol: pool.config.ticket_symbol.clone(),
        core_denom: pool.config.core_denom.clone(),
        validator_address: pool.config.validator_address.clone(),
        total_tickets: pool.config.total_tickets,
        max_tickets_per_user: pool.config.max_tickets_per_user,
        ticket_price: pool.config.ticket_price,
        draw_state: pool.config.draw_state,
        winner: copy_of(&pool.config.winner),
        undelegation_done_timestamp: pool.config.undelegation_done_timestamp,
        accumulated_rewards: pool.config.accumulated_rewards,
        bonus_rewards: pool.config.bonus_rewards,
    }
}

/// The staking rewards as they were written down when the winner was named.
/// Before that there is no such record, and the question fails.
pub fn query_accumulated_rewards_at_undelegation(pool: &Pool) -> (r: Result<
    AccumulatedRewardsAtUndelegationResponse,
    ContractError,
>)
    ensures
        match r {
            Ok(response) => pool.accumulated_rewards_at_undelegation == Some(
                response.accumulated_rewards,
            ),
            Err(e) => pool.accumulated_rewards_at_undelegation is None && e is Std,
        },
{
    match pool.accumulated_rewards_at_undelegation {
        Some(accumulated_rewards) => Ok(
            AccumulatedRewardsAtUndelegationResponse { accumulated_rewards },
        ),
        None => Err(ContractError::Std(std_not_found("accumulated_rewards_at_undelegation"))),
    }
}

/// The balance of the ticket token that the token facility wrote as
/// `balance`, in smallest units.
pub fn query_ticket_balance(balance: &str) -> (r: Result<BalanceResponse, ContractError>)
    ensures
        match r {
            Ok(response) => parsed_u128(balance@) == Some(response.balance),
            Err(e) => parsed_u128(balance@) is None && e is Std,
        },
{
    match parse_uint128(balance) {
        Ok(balance) => Ok(BalanceResponse { balance }),
        Err(e) => Err(ContractError::Std(e)),
    }
}

/// What a line of a list of holders says: the address, the tickets, and the
/// chance of winning as it is written.
pub open spec fn info_view(info: ParticipantInfo) -> (Seq<char>, u128, Seq<char>) {
    (info.address@, info.tickets, info.win_chance@)
}

/// What a list of holders says, line by line.
pub open spec fn infos_view(infos: Seq<ParticipantInfo>) -> Seq<(Seq<char>, u128, Seq<char>)> {
    Seq::new(infos.len(), |i: int| info_view(infos[i]))
}

/// The holdings `l` as a list of holders: those that hold no ticket are left
/// out, the others stay in their order, each with its chance of winning
/// among `sold` tickets.
pub open spec fn with_chances(l: Seq<(Seq<char>, u128)>, sold: u128) -> Seq<
    (Seq<char>, u128, Seq<char>),
>
    decreases l.len(),
{
    if l.len() == 0 {
        seq![]
    } else if l.last().1 == 0 {
        with_chances(l.drop_last(), sold)
    } else {
        with_chances(l.drop_last(), sold).push(
            (l.last().0, l.last().1, win_chance_text(l.last().1 as nat, sold as nat)),
        )
    }
}

/// Adds a holder of `tickets` tickets to a list of holders, unless it holds
/// none.
fn push_holder(list: &mut Vec<ParticipantInfo>, address: &String, tickets: u128, sold: u128)
    ensures
        infos_view(final(list)@) == infos_view(old(list)@).add(
            with_chances(seq![(address@, tickets)], sold),
        ),
{
    let ghost one = seq![(address@, tickets)];
    assert(one.drop_last() =~= Seq::<(Seq<char>, u128)>::empty());
    assert(with_chances(one.drop_last(), sold) =~= Seq::<(Seq<char>, u128, Seq<char>)>::empty());
    if tickets != 0 {
        list.push(
            ParticipantInfo {
                address: address.clone(),
                tickets,
                win_chance: calculate_win_chance(tickets, sold),
            },
        );
        assert(infos_view(list@) =~= infos_view(old(list)@).add(with_chances(one, sold)));
    } else {
        assert(infos_view(list@) =~= infos_view(old(list)@).add(with_chances(one, sold)));
    }
}

/// A list of holders grows by one holding as its holdings do.
pub proof fn lemma_with_chances_push(l: Seq<(Seq<char>, u128)>, e: (Seq<char>, u128), sold: u128)
    ensures
        with_chances(l.push(e), sold) == with_chances(l, sold).add(with_chances(seq![e], sold)),
{
    let one = seq![e];
    assert(l.push(e).drop_last() =~= l);
    assert(one.drop_last() =~= Seq::<(Seq<char>, u128)>::empty());
    assert(with_chances(one.drop_last(), sold) =~= Seq::<(Seq<char>, u128, Seq<char>)>::empty());
    if e.1 == 0 {
        assert(with_chances(l, sold).add(with_chances(one, sold)) =~= with_chances(l, sold));
    } else {
        assert(with_chances(l, sold).add(with_chances(one, sold)) =~= with_chances(l, sold).push(
            (e.0, e.1, win_chance_text(e.1 as nat, sold as nat)),
        ));
    }
}

/// Lists what a ledger holds: the holders of a ticket at least, in the
/// ledger's order, each with its chance of winning among `sold` tickets.
pub fn list_holders(ledger: &Ledger, sold: u128) -> (r: Vec<ParticipantInfo>)
    ensures
        infos_view(r@) == with_chances(ledger.listing(), sold),
{
    let mut list: Vec<ParticipantInfo> = Vec::new();
    let ghost l = ledger.listing();
    let mut i: usize = 0;
    assert(infos_view(list@) =~= with_chances(l.take(0), sold));
    while i < ledger.len()
        invariant
            i <= l.len(),
            l == ledger.listing(),
            infos_view(list@) == with_chances(l.take(i as int), sold),
        decreases l.len() - i,
    {
        let entry = ledger.entry(i);
        proof {
            lemma_with_chances_push(l.take(i as int), l[i as int], sold);
            assert(l.take(i as int).push(l[i as int]) =~= l.take(i + 1));
        }
        push_holder(&mut list, &entry.address, entry.amount, sold);
        i += 1;
    }
    assert(l.take(i as int) =~= l);
    list
}

/// The buyers by the pool's own count, in ascending order of their
/// addresses, each with its chance of winning.
pub fn query_participants(pool: &Pool) -> (r: ParticipantsResponse)
    requires
        pool.wf(),
    ensures
        infos_view(r.participants@) == with_chances(
            sorted_listing(pool.ticket_holders@),
            pool.total_tickets_sold,
        ),
        r.total_participants == r.participants@.len(),
{
    proof {
        pool.ticket_holders.lemma_listing_is_sorted();
    }
    let participants = list_holders(&pool.ticket_holders, pool.total_tickets_sold);
    let total_participants = participants.len() as u64;
    ParticipantsResponse { participants, total_participants }
}

/// The holdings that the token facility lists: for each account the whole
/// tickets that its balance makes. Of an account that is listed twice the
/// later line counts.
pub open spec fn holdings(holders: Seq<TokenHolder>) -> Map<Seq<char>, u128>
    decreases holders.len(),
{
    if holders.len() == 0 {
        Map::empty()
    } else {
        holdings(holders.drop_last()).insert(
            holders.last().address@,
            holders.last().balance / TICKET_UNIT,
        )
    }
}

/// The holders of the ticket token as the token facility lists them in
/// `holders`, in ascending order of their addresses whatever the order of
/// `holders`, each with its chance of winning. An account that was sent
/// tickets is listed here though it never bought from the pool.
pub fn query_ticket_holders(pool: &Pool, holders: &Vec<TokenHolder>) -> (r: TicketHoldersResponse)
    ensures
        infos_view(r.holders@) == with_chances(
            sorted_listing(holdings(holders@)),
            pool.total_tickets_sold,
        ),
        r.total_holders == r.holders@.len(),
{
    let mut ledger = Ledger::new();
    let mut i: usize = 0;
    assert(holders@.take(0) =~= Seq::<TokenHolder>::empty());
    while i < holders.len()
        invariant
            i <= holders@.len(),
            ledger.wf(),
            ledger@ == holdings(holders@.take(i as int)),
        decreases holders@.len() - i,
    {
        let holder = &holders[i];
        assert(holders@.take(i + 1).drop_last() =~= holders@.take(i as int));
        ledger.set(holder.address.as_str(), holder.balance / TICKET_UNIT);
        i += 1;
    }
    assert(holders@.take(i as int) =~= holders@);
    proof {
        ledger.lemma_listing_is_sorted();
    }
    let list = list_holders(&ledger, pool.total_tickets_sold);
    let total_holders = list.len() as u64;
    TicketHoldersResponse { holders: list, total_holders }
}

/// The winner, once named, and what is or was to be paid out: the rewards
/// written down for the winner and the bonus as it stands.
pub fn query_winner(pool: &Pool) -> (r: Result<WinnerResponse, ContractError>)
    ensures
        match r {
            Ok(response) => {
                &&& response.winner == pool.config.winner
                &&& response.rewards == pool.config.accumulated_rewards
                    + pool.config.bonus_rewards
            },
            Err(e) => {
                &&& e == ContractError::Overflow {  }
                &&& pool.config.accumulated_rewards + pool.config.bonus_rewards > u128::MAX
            },
        },
{
    match pool.config.accumulated_rewards.checked_add(pool.config.bonus_rewards) {
        Some(rewards) => Ok(WinnerResponse { winner: copy_of(&pool.config.winner), rewards }),
        None => Err(ContractError::Overflow {  }),
    }
}

/// The phase of the round and its deadline.
pub fn query_current_state(pool: &Pool) -> (r: CurrentStateResponse)
    ensures
        r.state == pool.config.draw_state,
        r.undelegation_done_timestamp == pool.config.undelegation_done_timestamp,
{
    CurrentStateResponse {
        state: pool.config.draw_state,
        undelegation_done_timestamp: pool.config.undelegation_done_timestamp,
    }
}

/// How many tickets there are, how many are sold and how many are left.
pub fn query_number_of_tickets_sold(pool: &Pool) -> (r: TicketsSoldResponse)
    ensures
        r.total_tickets == pool.config.total_tickets,
        r.tickets_sold == pool.total_tickets_sold,
        r.tickets_remaining == room(pool.config.total_tickets, pool.total_tickets_sold),
{
    let tickets_remaining: u128 = if pool.total_tickets_sold <= pool.config.total_tickets {
        pool.config.total_tickets - pool.total_tickets_sold
    } else {
        0
    };
    TicketsSoldResponse {
        total_tickets: pool.config.total_tickets,
        tickets_sold: pool.total_tickets_sold,
        tickets_remaining,
    }
}

/// The bonus that was added to the pool.
pub fn query_bonus_rewards(pool: &Pool) -> (r: BonusRewardsResponse)
    ensures
        r.bonus_rewards == pool.config.bonus_rewards,
{
    BonusRewardsResponse { bonus_rewards: pool.config.bonus_rewards }
}

/// The value locked in the pool, in its base asset.
pub fn query_draft_tvl(pool: &Pool) -> (r: Result<DraftTvlResponse, ContractError>)
    ensures
        match r {
            Ok(response) => {
                &&& response.tvl == pool.total_tickets_sold * pool.config.ticket_price
                &&& response.denom == pool.config.core_denom
            },
            Err(e) => {
                &&& e == ContractError::Overflow {  }
                &&& pool.total_tickets_sold * pool.config.ticket_price > u128::MAX
            },
        },
{
    match get_draft_tvl(pool) {
        Ok(tvl) => Ok(DraftTvlResponse { tvl, denom: pool.config.core_denom.clone() }),
        Err(e) => Err(e),
    }
}

/// The tickets that `address` holds by the pool's own count.
pub fn query_user_number_of_tickets(pool: &Pool, address: String) -> (r: UserTicketsResponse)
    requires
        pool.wf(),
    ensures
        r.address == address,
        r.tickets == pool.ticket_holders.amount(address@),
{
    let tickets = match pool.ticket_holders.get(address.as_str()) {
        Some(value) => value,
        None => 0,
    };
    UserTicketsResponse { address, tickets }
}

/// The chance of `address` to win: its tickets by the pool's own count
/// against all tickets sold.
pub fn query_user_win_chance(pool: &Pool, address: String) -> (r: UserWinChanceResponse)
    requires
        pool.wf(),
    ensures
        r.address == address,
        r.tickets == pool.ticket_holders.amount(address@),
        r.win_chance@ == win_chance_text(r.tickets as nat, pool.total_tickets_sold as nat),
{
    let tickets = match pool.ticket_holders.get(address.as_str()) {
        Some(value) => value,
        None => 0,
    };
    let win_chance = calculate_win_chance(tickets, pool.total_tickets_sold);
    UserWinChanceResponse { address, tickets, win_chance }
}

/// How many tickets are burned.
pub fn query_total_tickets_burned(pool: &Pool) -> (r: TotalBurnedResponse)
    ensures
        r.total_burned == pool.total_tickets_burned,
{
    TotalBurnedResponse { total_burned: pool.total_tickets_burned }
}

/// What a list of refunds says, line by line: the address and the amount.
pub open spec fn claims_view(claims: Seq<ClaimInfo>) -> Seq<(Seq<char>, u128)> {
    Seq::new(claims.len(), |i: int| (claims[i].address@, claims[i].amount))
}

/// The refunds of one address as a list: one line, or none where nothing
/// was refunded.
pub open spec fn claim_of(pool: Pool, address: Seq<char>) -> Seq<(Seq<char>, u128)> {
    if pool.claims.amount(address) == 0 {
        seq![]
    } else {
        seq![(address, pool.claims.amount(address))]
    }
}

/// The refunds paid: to `address` where one is given, else to every holder
/// with an entry, in ascending order of the addresses, and their sum.
pub fn query_claims(pool: &Pool, address: Option<String>) -> (r: Result<
    ClaimsResponse,
    ContractError,
>)
    requires
        pool.wf(),
    ensures
        match address {
            Some(a) => r is Ok && claims_view(r->Ok_0.claims@) == claim_of(*pool, a@)
                && r->Ok_0.total_claimed == pool.claims.amount(a@),
            None => match r {
                Ok(response) => {
                    &&& claims_view(response.claims@) == sorted_listing(pool.claims@)
                    &&& response.total_claimed == pool.claims.total()
                },
                Err(e) => e == ContractError::Overflow {  } && pool.claims.total() > u128::MAX,
            },
        },
{
    let mut claims: Vec<ClaimInfo> = Vec::new();
    let mut total_claimed: u128 = 0;
    proof {
        pool.claims.lemma_listing_is_sorted();
    }
    match address {
        Some(addr) => {
            let claim_amount = match pool.claims.get(addr.as_str()) {
                Some(value) => value,
                None => 0,
            };
            if claim_amount != 0 {
                claims.push(ClaimInfo { address: addr, amount: claim_amount });
                total_claimed = claim_amount;
            }
            assert(claims_view(claims@) =~= claim_of(*pool, addr@));
        },
        None => {
            let ghost l = pool.claims.listing();
            let mut i: usize = 0;
            assert(claims_view(claims@) =~= l.take(0));
            assert(l.take(0) =~= Seq::<(Seq<char>, u128)>::empty());
            while i < pool.claims.len()
                invariant
                    address is None,
                    i <= l.len(),
                    l == pool.claims.listing(),
                    claims_view(claims@) == l.take(i as int),
                    total_claimed == listing_total(l.take(i as int)),
                decreases l.len() - i,
            {
                let entry = pool.claims.entry(i);
                proof {
                    assert(l.take(i + 1).drop_last() =~= l.take(i as int));
                    lemma_total_take(l, i + 1);
                }
                total_claimed = match total_claimed.checked_add(entry.amount) {
                    Some(sum) => sum,
                    None => { return Err(ContractError::Overflow {  }); },
                };
                claims.push(ClaimInfo { address: entry.address.clone(), amount: entry.amount });
                assert(claims_view(claims@) =~= l.take(i + 1));
                i += 1;
            }
            assert(l.take(i as int) =~= l);
        },
    }
    Ok(ClaimsResponse { claims, total_claimed })
}

/// What the pool has staked: the delegation that the staking facility
/// reports, and nothing of the base asset where it reports none.
pub fn query_delegated_amount(pool: &Pool, delegation: &Option<Coin>) -> (r:
    DelegatedAmountResponse)
    ensures
        r.amount == match *delegation {
            Some(d) => d,
            None => Coin { denom: pool.config.core_denom, amount: 0 },
        },
{
    let amount = match delegation {
        Some(d) => Coin { denom: d.denom.clone(), amount: d.amount },
        None => Coin { denom: pool.config.core_denom.clone(), amount: 0 },
    };
    DelegatedAmountResponse { amount }
}

/// Whether `r` is the answer that the pool owes to the question `msg`, with
/// `facilities` as what the staking facility and the token facility report.
pub open spec fn answers(
    pool: Pool,
    msg: QueryMsg,
    facilities: Facilities,
    r: Result<QueryResponse, ContractError>,
) -> bool {
    match msg {
        QueryMsg::Balance { account } => match facilities.ticket_balance {
            Ok(text) => match r {
                Ok(QueryResponse::Balance(a)) => parsed_u128(text@) == Some(a.balance),
                Err(e) => parsed_u128(text@) is None && e is Std,
                _ => false,
            },
            Err(asking) => r == Err::<QueryResponse, ContractError>(ContractError::Std(asking)),
        },
        QueryMsg::GetParticipants {  } => match r {
            Ok(QueryResponse::Participants(a)) => {
                &&& infos_view(a.participants@) == with_chances(
                    sorted_listing(pool.ticket_holders@),
                    pool.total_tickets_sold,
                )
                &&& a.total_participants == a.participants@.len()
            },
            _ => false,
        },
        QueryMsg::GetWinner {  } => match r {
            Ok(QueryResponse::Winner(a)) => {
                &&& a.winner == pool.config.winner
                &&& a.rewards == pool.config.accumulated_rewards + pool.config.bonus_rewards
            },
            Err(e) => {
                &&& e == ContractError::Overflow {  }
                &&& pool.config.accumulated_rewards + pool.config.bonus_rewards > u128::MAX
            },
            _ => false,
        },
        QueryMsg::GetCurrentState {  } => match r {
            Ok(QueryResponse::CurrentState(a)) => {
                &&& a.state == pool.config.draw_state
                &&& a.undelegation_done_timestamp == pool.config.undelegation_done_timestamp
            },
            _ => false,
        },
        QueryMsg::GetNumberOfTicketsSold {  } => match r {
            Ok(QueryResponse::TicketsSold(a)) => {
                &&& a.total_tickets == pool.config.total_tickets
                &&& a.tickets_sold == pool.total_tickets_sold
                &&& a.tickets_remaining == room(pool.config.total_tickets, pool.total_tickets_sold)
            },
            _ => false,
        },
        QueryMsg::GetBonusRewards {  } => match r {
            Ok(QueryResponse::BonusRewards(a)) => a.bonus_rewards == pool.config.bonus_rewards,
            _ => false,
        },
        QueryMsg::GetAccumulatedRewards {  } => match facilities.delegation_rewards {
            Ok(coins) => match r {
                Ok(QueryResponse::AccumulatedRewards(a)) => a.accumulated_rewards
                    == rewards_total(coins@, pool.config.core_denom@),
                Err(e) => {
                    &&& e == ContractError::Overflow {  }
                    &&& rewards_total(coins@, pool.config.core_denom@) > u128::MAX
                },
                _ => false,
            },
            Err(asking) => r == Err::<QueryResponse, ContractError>(ContractError::Std(asking)),
        },
        QueryMsg::GetAccumulatedRewardsAtUndelegation {  } => match r {
            Ok(QueryResponse::AccumulatedRewardsAtUndelegation(a)) =>
                pool.accumulated_rewards_at_undelegation == Some(a.accumulated_rewards),
            Err(e) => pool.accumulated_rewards_at_undelegation is None && e is Std,
            _ => false,
        },
        QueryMsg::GetDraftTvl {  } => match r {
            Ok(QueryResponse::DraftTvl(a)) => {
                &&& a.tvl == pool.total_tickets_sold * pool.config.ticket_price
                &&& a.denom == pool.config.core_denom
            },
            Err(e) => {
                &&& e == ContractError::Overflow {  }
                &&& pool.total_tickets_sold * pool.config.ticket_price > u128::MAX
            },
            _ => false,
        },
        QueryMsg::GetTicketHolders {  } => match r {
            Ok(QueryResponse::TicketHolders(a)) => {
                &&& infos_view(a.holders@) == with_chances(
                    sorted_listing(holdings(facilities.token_holders@)),
                    pool.total_tickets_sold,
                )
                &&& a.total_holders == a.holders@.len()
            },
            _ => false,
        },
        QueryMsg::GetUserNumberOfTickets { address } => match r {
            Ok(QueryResponse::UserTickets(a)) => {
                &&& a.address == address
                &&& a.tickets == pool.ticket_holders.amount(address@)
            },
            _ => false,
        },
        QueryMsg::GetUserWinChance { address } => match r {
            Ok(QueryResponse::UserWinChance(a)) => {
                &&& a.address == address
                &&& a.tickets == pool.ticket_holders.amount(address@)
                &&& a.win_chance@ == win_chance_text(
                    a.tickets as nat,
                    pool.total_tickets_sold as nat,
                )
            },
            _ => false,
        },
        QueryMsg::GetTotalTicketsBurned {  } => match r {
            Ok(QueryResponse::TotalBurned(a)) => a.total_burned == pool.total_tickets_burned,
            _ => false,
        },
        QueryMsg::GetClaims { address: Some(address) } => match r {
            Ok(QueryResponse::Claims(a)) => {
                &&& claims_view(a.claims@) == claim_of(pool, address@)
                &&& a.total_claimed == pool.claims.amount(address@)
            },
            _ => false,
        },
        QueryMsg::GetClaims { address: None } => match r {
            Ok(QueryResponse::Claims(a)) => {
                &&& claims_view(a.claims@) == sorted_listing(pool.claims@)
                &&& a.total_claimed == pool.claims.total()
            },
            Err(e) => e == ContractError::Overflow {  } && pool.claims.total() > u128::MAX,
            _ => false,
        },
        QueryMsg::GetDelegatedAmount {  } => match facilities.delegation {
            Ok(delegation) => match r {
                Ok(QueryResponse::DelegatedAmount(a)) => a.amount == match delegation {
                    Some(d) => d,
                    None => Coin { denom: pool.config.core_denom, amount: 0 },
                },
                _ => false,
            },
            Err(asking) => r == Err::<QueryResponse, ContractError>(ContractError::Std(asking)),
        },
        QueryMsg::GetContractConfig {  } => match r {
            Ok(QueryResponse::ContractConfig(a)) => a == pool.config,
            _ => false,
        },
    }
}

/// Answers a question: hands `msg` to the function for its kind.
/// `facilities` is what the staking facility and the token facility
/// answered; for `Balance`, its balance is that of the account asked about.
/// A question that needs an answer that could not be had fails with the
/// error of asking.
pub fn query(pool: &Pool, msg: QueryMsg, facilities: Facilities) -> (r: Result<
    QueryResponse,
    ContractError,
>)
    requires
        pool.wf(),
    ensures
        answers(*pool, msg, facilities, r),
{
    let Facilities { ticket_balance, delegation_rewards, delegation, token_holders } = facilities;
    match msg {
        QueryMsg::Balance { account: _ } => match ticket_balance {
            Ok(text) => match query_ticket_balance(text.as_str()) {
                Ok(a) => Ok(QueryResponse::Balance(a)),
                Err(e) => Err(e),
            },
            Err(e) => Err(ContractError::Std(e)),
        },
        QueryMsg::GetParticipants {  } => Ok(QueryResponse::Participants(query_participants(pool))),
        QueryMsg::GetWinner {  } => match query_winner(pool) {
            Ok(a) => Ok(QueryResponse::Winner(a)),
            Err(e) => Err(e),
        },
        QueryMsg::GetCurrentState {  } => Ok(
            QueryResponse::CurrentState(query_current_state(pool)),
        ),
        QueryMsg::GetNumberOfTicketsSold {  } => Ok(
            QueryResponse::TicketsSold(query_number_of_tickets_sold(pool)),
        ),
        QueryMsg::GetBonusRewards {  } => Ok(
            QueryResponse::BonusRewards(query_bonus_rewards(pool)),
        ),
        QueryMsg::GetAccumulatedRewards {  } => match delegation_rewards {
            Ok(coins) => match query_accumulated_rewards(pool, &coins) {
                Ok(a) => Ok(QueryResponse::AccumulatedRewards(a)),
                Err(e) => Err(e),
            },
            Err(e) => Err(ContractError::Std(e)),
        },
        QueryMsg::GetAccumulatedRewardsAtUndelegation {  } => match query_accumulated_rewards_at_undelegation(
        pool) {
            Ok(a) => Ok(QueryResponse::AccumulatedRewardsAtUndelegation(a)),
            Err(e) => Err(e),
        },
        QueryMsg::GetDraftTvl {  } => match query_draft_tvl(pool) {
            Ok(a) => Ok(QueryResponse::DraftTvl(a)),
            Err(e) => Err(e),
        },
        QueryMsg::GetTicketHolders {  } => Ok(
            QueryResponse::TicketHolders(query_ticket_holders(pool, &token_holders)),
        ),
        QueryMsg::GetUserNumberOfTickets { address } => Ok(
            QueryResponse::UserTickets(query_user_number_of_tickets(pool, address)),
        ),
        QueryMsg::GetUserWinChance { address } => Ok(
            QueryResponse::UserWinChance(query_user_win_chance(pool, address)),
        ),
        QueryMsg::GetTotalTicketsBurned {  } => Ok(
            QueryResponse::TotalBurned(query_total_tickets_burned(pool)),
        ),
        QueryMsg::GetClaims { address } => match query_claims(pool, address) {
            Ok(a) => Ok(QueryResponse::Claims(a)),
            Err(e) => Err(e),
        },
        QueryMsg::GetDelegatedAmount {  } => match delegation {
            Ok(delegation) => Ok(
                QueryResponse::DelegatedAmount(query_delegated_amount(pool, &delegation)),
            ),
            Err(e) => Err(ContractError::Std(e)),
        },
        QueryMsg::GetContractConfig {  } => Ok(
            QueryResponse::ContractConfig(query_contract_config(pool)),
        ),
    }
}

} // verus!
