use coreum_fun::chain::{find_amount, Coin, Env, MessageInfo};
use coreum_fun::contract::instantiate;
use coreum_fun::error::ContractError;
use coreum_fun::msg::InstantiateMsg;
use coreum_fun::state::{
    all_tickets_burned, decrease_ticket_holder, get_draft_tvl, increment_tickets_burned,
    increment_tickets_sold, initialize_storage, should_close_ticket_sales, update_claim,
    update_ticket_holder, Pool,
};

fn pool(total_tickets: u128, ticket_price: u128) -> Pool {
    let msg = InstantiateMsg {
        ticket_token_symbol: "TICKET".to_string(),
        core_denom: "ucore".to_string(),
        validator_address: "corevaloper1v".to_string(),
        total_tickets,
        ticket_price,
        max_tickets_per_user: 10,
    };
    let env = Env { block_time: 1, contract_address: "core1pool".to_string() };
    let info = MessageInfo { sender: "core1owner".to_string(), funds: vec![] };
    instantiate(&env, &info, msg).unwrap().0
}

#[test]
fn counters_count_up() {
    let mut p = pool(10, 100);
    assert_eq!(increment_tickets_sold(&mut p, 4), Ok(4));
    assert_eq!(increment_tickets_sold(&mut p, 3), Ok(7));
    assert_eq!(p.total_tickets_sold, 7);
    assert_eq!(increment_tickets_burned(&mut p, 2), Ok(2));
    assert_eq!(increment_tickets_burned(&mut p, 0), Ok(2));
    assert_eq!(p.total_tickets_burned, 2);
    assert_eq!(increment_tickets_sold(&mut p, u128::MAX - 6), Err(ContractError::Overflow {}));
    assert_eq!(increment_tickets_burned(&mut p, u128::MAX - 1), Err(ContractError::Overflow {}));
    assert_eq!(p.total_tickets_sold, 7);
    assert_eq!(p.total_tickets_burned, 2);
    assert_eq!(increment_tickets_sold(&mut p, u128::MAX - 7), Ok(u128::MAX));
    initialize_storage(&mut p);
    assert_eq!(p.total_tickets_sold, 0);
    assert_eq!(p.total_tickets_burned, 0);
}

#[test]
fn holders_gain_and_lose_tickets() {
    let mut p = pool(10, 100);
    assert_eq!(update_ticket_holder(&mut p, "core1a", 3), Ok(3));
    assert_eq!(update_ticket_holder(&mut p, "core1a", 4), Ok(7));
    assert_eq!(update_ticket_holder(&mut p, "core1b", 1), Ok(1));
    assert_eq!(update_ticket_holder(&mut p, "core1a", u128::MAX - 6), Err(ContractError::Overflow {}));
    assert_eq!(p.ticket_holders.get("core1a"), Some(7));

    assert_eq!(decrease_ticket_holder(&mut p, "core1a", 2), Ok(5));
    assert_eq!(
        decrease_ticket_holder(&mut p, "core1a", 6),
        Err(ContractError::NotEnoughTickets { requested: 6, available: 5 })
    );
    assert_eq!(decrease_ticket_holder(&mut p, "core1a", 5), Ok(0));
    assert_eq!(p.ticket_holders.get("core1a"), Some(0));
    assert_eq!(decrease_ticket_holder(&mut p, "core1a", 0), Ok(0));
    assert_eq!(
        decrease_ticket_holder(&mut p, "core1c", 1),
        Err(ContractError::NotEnoughTickets { requested: 1, available: 0 })
    );
    assert_eq!(p.ticket_holders.get("core1c"), None);
    assert_eq!(p.ticket_holders.get("core1b"), Some(1));
}

#[test]
fn claims_add_up() {
    let mut p = pool(10, 100);
    assert_eq!(update_claim(&mut p, "core1a", 300), Ok(300));
    assert_eq!(update_claim(&mut p, "core1a", 50), Ok(350));
    assert_eq!(update_claim(&mut p, "core1a", u128::MAX), Err(ContractError::Overflow {}));
    assert_eq!(p.claims.get("core1a"), Some(350));
    assert_eq!(p.claims.get("core1b"), None);
    assert_eq!(p.ticket_holders.len(), 0);
}

#[test]
fn tvl_is_price_of_tickets_sold() {
    let mut p = pool(1000, 200_000_000);
    assert_eq!(get_draft_tvl(&p), Ok(0));
    increment_tickets_sold(&mut p, 5).unwrap();
    assert_eq!(get_draft_tvl(&p), Ok(1_000_000_000));
    p.total_tickets_sold = u128::MAX;
    assert_eq!(get_draft_tvl(&p), Err(ContractError::Overflow {}));
}

#[test]
fn sales_close_and_round_ends_on_equal_counts() {
    let mut p = pool(3, 100);
    assert!(!should_close_ticket_sales(&p));
    assert!(all_tickets_burned(&p));
    increment_tickets_sold(&mut p, 3).unwrap();
    assert!(should_close_ticket_sales(&p));
    assert!(!all_tickets_burned(&p));
    increment_tickets_burned(&mut p, 2).unwrap();
    assert!(!all_tickets_burned(&p));
    increment_tickets_burned(&mut p, 1).unwrap();
    assert!(all_tickets_burned(&p));
}

#[test]
fn find_amount_takes_the_first_coin_of_the_denomination() {
    let funds = vec![
        Coin { denom: "a".to_string(), amount: 1 },
        Coin { denom: "b".to_string(), amount: 2 },
        Coin { denom: "b".to_string(), amount: 3 },
    ];
    assert_eq!(find_amount(&funds, &"b".to_string()), Some(2));
    assert_eq!(find_amount(&funds, &"a".to_string()), Some(1));
    assert_eq!(find_amount(&funds, &"c".to_string()), None);
    assert_eq!(find_amount(&vec![], &"a".to_string()), None);
}
