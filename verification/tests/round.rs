use std::collections::BTreeMap;

use coreum_fun::chain::{
    Coin, DecCoin, Decimal256, Env, Facilities, Feature, MessageInfo, OutboundMsg, Response,
};
use coreum_fun::contract::{execute, instantiate};
use coreum_fun::error::ContractError;
use coreum_fun::msg::{
    ExecuteMsg, InstantiateMsg, OwnershipAction, QueryMsg, QueryResponse, TicketHoldersResponse,
    TokenHolder,
};
use coreum_fun::query::query;
use coreum_fun::state::{DrawState, Pool};

const FEE_DENOM: &str = "ucore";
const TICKET_TOKEN: &str = "TICKET";
const TICKET_PRECISION: u32 = 6;
const SECONDS_PER_DAY: u64 = 24 * 60 * 60;
const UNDELEGATION_DAYS: u64 = 7;
const TICKET_PRICE: u128 = 200_000_000; //200 COREUM
const CONTRACT: &str = "core1pool";
const VALIDATOR: &str = "corevaloper1validator";
const START: u64 = 1_700_000_000;

fn coin(amount: u128, denom: &str) -> Coin {
    Coin { denom: denom.to_string(), amount }
}

/// A chain of one pool: the accounts' balances, the pool's stake and what it
/// has accrued, and the clock.
struct App {
    pool: Option<Pool>,
    time: u64,
    balances: BTreeMap<(String, String), u128>,
    delegated: u128,
    unbonding: u128,
    /// The accrued staking rewards, in 10^-18 units of the base asset.
    reward_atomics: u128,
    token_admin: String,
    accounts: u32,
}

impl App {
    fn new() -> App {
        App {
            pool: None,
            time: START,
            balances: BTreeMap::new(),
            delegated: 0,
            unbonding: 0,
            reward_atomics: 0,
            token_admin: String::new(),
            accounts: 0,
        }
    }

    fn init_account(&mut self, funds: &[Coin]) -> String {
        self.accounts += 1;
        let address = format!("core1account{:04}", self.accounts);
        for c in funds {
            self.credit(&address, &c.denom, c.amount);
        }
        address
    }

    fn env(&self) -> Env {
        Env { block_time: self.time, contract_address: CONTRACT.to_string() }
    }

    fn balance(&self, address: &str, denom: &str) -> u128 {
        *self.balances.get(&(address.to_string(), denom.to_string())).unwrap_or(&0)
    }

    fn credit(&mut self, address: &str, denom: &str, amount: u128) {
        *self.balances.entry((address.to_string(), denom.to_string())).or_insert(0) += amount;
    }

    fn debit(&mut self, address: &str, denom: &str, amount: u128) {
        let held = self.balance(address, denom);
        assert!(held >= amount, "{} holds {} {}, not {}", address, held, denom, amount);
        self.balances.insert((address.to_string(), denom.to_string()), held - amount);
    }

    fn ticket_denom(&self) -> String {
        format!("u{}-{}", TICKET_TOKEN.to_lowercase(), CONTRACT)
    }

    fn increase_time(&mut self, seconds: u64) {
        self.time += seconds;
        if self.delegated > 0 {
            // one unit of the base asset and a half for every second staked
            self.reward_atomics += seconds as u128 * 1_500_000_000_000_000_000;
        }
        if self.unbonding > 0 && seconds >= SECONDS_PER_DAY * UNDELEGATION_DAYS {
            let released = self.unbonding;
            self.unbonding = 0;
            self.credit(CONTRACT, FEE_DENOM, released);
        }
    }

    fn facilities(&self, account: &str) -> Facilities {
        let ticket_denom = self.ticket_denom();
        let mut token_holders = Vec::new();
        for ((address, denom), amount) in &self.balances {
            if *denom == ticket_denom && *amount > 0 {
                token_holders.push(TokenHolder { address: address.clone(), balance: *amount });
            }
        }
        Facilities {
            ticket_balance: Ok(self.balance(account, &ticket_denom).to_string()),
            delegation_rewards: Ok(vec![
                DecCoin {
                    denom: "other".to_string(),
                    amount: Decimal256 { high: 0, low: 7_000_000_000_000_000_000 },
                },
                DecCoin {
                    denom: FEE_DENOM.to_string(),
                    amount: Decimal256 { high: 0, low: self.reward_atomics },
                },
            ]),
            delegation: Ok(if self.delegated > 0 {
                Some(coin(self.delegated, FEE_DENOM))
            } else {
                None
            }),
            token_holders,
        }
    }

    fn store_and_instantiate(
        &mut self,
        admin: &str,
        validator_address: String,
        total_tickets: u128,
        ticket_price: u128,
        max_tickets_per_user: u128,
    ) -> Result<String, ContractError> {
        let info = MessageInfo { sender: admin.to_string(), funds: vec![coin(10_000_000, FEE_DENOM)] };
        let msg = InstantiateMsg {
            ticket_token_symbol: TICKET_TOKEN.to_string(),
            core_denom: FEE_DENOM.to_string(),
            validator_address,
            total_tickets,
            ticket_price,
            max_tickets_per_user,
        };
        let (pool, response) = instantiate(&self.env(), &info, msg)?;
        self.debit(admin, FEE_DENOM, 10_000_000);
        self.credit(CONTRACT, FEE_DENOM, 10_000_000);
        self.pool = Some(pool);
        self.apply(response);
        Ok(CONTRACT.to_string())
    }

    fn execute(
        &mut self,
        msg: ExecuteMsg,
        funds: &[Coin],
        sender: &str,
    ) -> Result<Response, ContractError> {
        for c in funds {
            assert!(self.balance(sender, &c.denom) >= c.amount, "the sender cannot pay the funds");
        }
        let info = MessageInfo { sender: sender.to_string(), funds: funds.to_vec() };
        let facilities = self.facilities(sender);
        let env = self.env();
        let pool = self.pool.as_mut().expect("the pool is instantiated");
        let response = execute(pool, &env, &info, msg, facilities)?;
        let ticket_denom = self.ticket_denom();
        for c in funds {
            self.debit(sender, &c.denom, c.amount);
            // tickets that are handed to the pool are consumed on the way
            if c.denom != ticket_denom {
                self.credit(CONTRACT, &c.denom, c.amount);
            }
        }
        self.apply(response.clone());
        Ok(response)
    }

    fn apply(&mut self, response: Response) {
        for message in response.messages {
            match message {
                OutboundMsg::Issue {
                    issuer, symbol, subunit, precision, initial_amount, features, ..
                } => {
                    assert_eq!(symbol, TICKET_TOKEN);
                    assert_eq!(format!("{}-{}", subunit, issuer), self.ticket_denom());
                    assert_eq!(precision, TICKET_PRECISION);
                    assert_eq!(initial_amount, 0);
                    assert!(features.contains(&Feature::Minting));
                    assert!(features.contains(&Feature::Burning));
                    self.token_admin = issuer;
                }
                OutboundMsg::Delegate { validator, amount } => {
                    assert_eq!(validator, VALIDATOR);
                    self.debit(CONTRACT, &amount.denom, amount.amount);
                    self.delegated += amount.amount;
                }
                OutboundMsg::Undelegate { validator, amount } => {
                    assert_eq!(validator, VALIDATOR);
                    assert!(self.delegated >= amount.amount);
                    self.delegated -= amount.amount;
                    self.unbonding += amount.amount;
                    // the staking facility pays the accrued rewards out with it
                    let whole = self.reward_atomics / 1_000_000_000_000_000_000;
                    self.reward_atomics = 0;
                    self.credit(CONTRACT, FEE_DENOM, whole);
                }
                OutboundMsg::Mint { sender, coin, recipient } => {
                    assert_eq!(sender, self.token_admin);
                    assert_eq!(coin.denom, self.ticket_denom());
                    self.credit(&recipient, &coin.denom, coin.amount);
                }
                OutboundMsg::Send { to_address, amount } => {
                    self.debit(CONTRACT, &amount.denom, amount.amount);
                    self.credit(&to_address, &amount.denom, amount.amount);
                }
                OutboundMsg::TransferAdmin { sender, account, denom } => {
                    assert_eq!(sender, self.token_admin);
                    assert_eq!(denom, self.ticket_denom());
                    self.token_admin = account;
                }
            }
        }
    }

    /// What the token facility does with a mint that `sender` asks for.
    fn mint(&mut self, sender: &str, coin: Coin, recipient: &str) -> Result<(), String> {
        if sender != self.token_admin {
            return Err("unauthorized".to_string());
        }
        self.credit(recipient, &coin.denom, coin.amount);
        Ok(())
    }

    fn bank_send(&mut self, from: &str, to: &str, amount: Coin) {
        self.debit(from, &amount.denom, amount.amount);
        self.credit(to, &amount.denom, amount.amount);
    }

    fn query(&self, msg: QueryMsg, account: &str) -> QueryResponse {
        let pool = self.pool.as_ref().expect("the pool is instantiated");
        query(pool, msg, self.facilities(account)).unwrap()
    }

    fn state(&self) -> DrawState {
        match self.query(QueryMsg::GetCurrentState {}, CONTRACT) {
            QueryResponse::CurrentState(r) => r.state,
            other => panic!("{:?}", other),
        }
    }

    fn user_tickets(&self, address: &str) -> u128 {
        match self.query(
            QueryMsg::GetUserNumberOfTickets { address: address.to_string() },
            CONTRACT,
        ) {
            QueryResponse::UserTickets(r) => {
                assert_eq!(r.address, address);
                r.tickets
            }
            other => panic!("{:?}", other),
        }
    }

    fn tickets_sold(&self) -> u128 {
        match self.query(QueryMsg::GetNumberOfTicketsSold {}, CONTRACT) {
            QueryResponse::TicketsSold(r) => r.tickets_sold,
            other => panic!("{:?}", other),
        }
    }

    fn total_burned(&self) -> u128 {
        match self.query(QueryMsg::GetTotalTicketsBurned {}, CONTRACT) {
            QueryResponse::TotalBurned(r) => r.total_burned,
            other => panic!("{:?}", other),
        }
    }

    fn bonus_rewards(&self) -> u128 {
        match self.query(QueryMsg::GetBonusRewards {}, CONTRACT) {
            QueryResponse::BonusRewards(r) => r.bonus_rewards,
            other => panic!("{:?}", other),
        }
    }

    fn rewards_at_undelegation(&self) -> u128 {
        match self.query(QueryMsg::GetAccumulatedRewardsAtUndelegation {}, CONTRACT) {
            QueryResponse::AccumulatedRewardsAtUndelegation(r) => r.accumulated_rewards,
            other => panic!("{:?}", other),
        }
    }

    fn winner(&self) -> (Option<String>, u128) {
        match self.query(QueryMsg::GetWinner {}, CONTRACT) {
            QueryResponse::Winner(r) => (r.winner, r.rewards),
            other => panic!("{:?}", other),
        }
    }

    fn holders(&self) -> TicketHoldersResponse {
        match self.query(QueryMsg::GetTicketHolders {}, CONTRACT) {
            QueryResponse::TicketHolders(r) => r,
            other => panic!("{:?}", other),
        }
    }
}

fn ready(max_tickets_per_user: u128) -> (App, String, String) {
    let mut app = App::new();
    let admin = app.init_account(&[coin(100_000_000_000_000_000_000, FEE_DENOM)]);
    let user = app.init_account(&[coin(100_000_000_000_000_000_000, FEE_DENOM)]);
    app.store_and_instantiate(
        &admin,
        VALIDATOR.to_string(),
        1000,
        TICKET_PRICE,
        max_tickets_per_user,
    )
    .unwrap();
    (app, admin, user)
}

#[test]
fn contract_instantiation() {
    let mut app = App::new();
    let admin = app.init_account(&[coin(100_000_000_000_000_000_000, FEE_DENOM)]);
    let validator_creator = app.init_account(&[coin(100_000_000_000_000_000_000, FEE_DENOM)]);
    app.bank_send(&validator_creator, &admin, coin(1, FEE_DENOM));

    app.store_and_instantiate(&admin, VALIDATOR.to_string(), 1000, TICKET_PRICE, 10).unwrap();

    assert_eq!(app.state(), DrawState::TicketSalesOpen);
}

#[test]
fn buy_tickets() {
    let mut app = App::new();
    let admin = app.init_account(&[coin(100_000_000_000, FEE_DENOM)]);
    let user = app.init_account(&[coin(100_000_000_000, FEE_DENOM)]);
    app.store_and_instantiate(&admin, VALIDATOR.to_string(), 1000, TICKET_PRICE, 10).unwrap();

    let number_of_tickets = 5u128;
    let payment = number_of_tickets * TICKET_PRICE;
    app.execute(ExecuteMsg::BuyTicket { number_of_tickets }, &[coin(payment, FEE_DENOM)], &user)
        .unwrap();

    assert_eq!(app.user_tickets(&user), number_of_tickets);
    assert_eq!(app.tickets_sold(), number_of_tickets);
}

#[test]
fn select_winner_and_burn_tickets() {
    let mut app = App::new();
    let admin = app.init_account(&[coin(100_000_000_000, FEE_DENOM)]);
    let user = app.init_account(&[coin(100_000_000_000_000_000_000, FEE_DENOM)]);
    app.store_and_instantiate(&admin, VALIDATOR.to_string(), 1000, TICKET_PRICE, 1000).unwrap();

    let number_of_tickets = 1000u128;
    let payment = number_of_tickets * TICKET_PRICE;
    let ticket_denom = format!("u{}-{}", TICKET_TOKEN.to_lowercase(), CONTRACT);
    app.execute(ExecuteMsg::BuyTicket { number_of_tickets }, &[coin(payment, FEE_DENOM)], &user)
        .unwrap();

    let bonus_amount = 1000000u128;
    app.execute(
        ExecuteMsg::AddBonusRewardToThePool { amount: bonus_amount },
        &[coin(bonus_amount, FEE_DENOM)],
        &admin,
    )
    .unwrap();

    assert_eq!(app.user_tickets(&user), number_of_tickets);

    app.execute(
        ExecuteMsg::SelectWinnerAndUndelegate { winner_address: user.clone() },
        &[],
        &admin,
    )
    .unwrap();

    app.increase_time(SECONDS_PER_DAY * UNDELEGATION_DAYS + 10000000);

    let bonus_amount = 1000000u128;
    app.execute(
        ExecuteMsg::AddBonusRewardToThePool { amount: bonus_amount },
        &[coin(bonus_amount, FEE_DENOM)],
        &admin,
    )
    .unwrap();

    app.execute(ExecuteMsg::SendFundsToWinner {}, &[], &admin).unwrap();

    let (winner, _) = app.winner();
    assert_eq!(winner, Some(user.clone()));

    app.increase_time(SECONDS_PER_DAY * UNDELEGATION_DAYS + 10000);

    let tickets_to_burn = Coin {
        amount: number_of_tickets * 10u128.pow(TICKET_PRECISION),
        denom: ticket_denom,
    };
    app.execute(ExecuteMsg::BurnTickets { number_of_tickets }, &[tickets_to_burn], &user).unwrap();

    assert_eq!(app.total_burned(), number_of_tickets);
}

#[test]
fn test_error_cases() {
    let mut app = App::new();
    let admin = app.init_account(&[coin(100_000_000_000, FEE_DENOM)]);
    let user = app.init_account(&[coin(100_000_000_000, FEE_DENOM)]);

    // invalid total_tickets
    let result = app.store_and_instantiate(&admin, VALIDATOR.to_string(), 0, 1000000, 10);
    assert!(result.is_err());
    assert_eq!(result.unwrap_err(), ContractError::InvalidTicketAmount {});

    app.store_and_instantiate(&admin, VALIDATOR.to_string(), 1000, 1000000, 10).unwrap();

    // insufficient funds
    let result =
        app.execute(ExecuteMsg::BuyTicket { number_of_tickets: 5 }, &[coin(1000, FEE_DENOM)], &user);
    assert!(result.is_err());
    assert_eq!(
        result.unwrap_err(),
        ContractError::InsufficientFunds { required: 5000000, provided: 1000 }
    );

    // unauthorized winner selection
    let result = app.execute(
        ExecuteMsg::SelectWinnerAndUndelegate { winner_address: user.clone() },
        &[],
        &user,
    );
    assert!(result.is_err());
    assert_eq!(result.unwrap_err(), ContractError::Unauthorized {});

    // burning tickets before winner selection
    let result = app.execute(ExecuteMsg::BurnTickets { number_of_tickets: 5 }, &[], &user);
    assert!(result.is_err());
    assert_eq!(
        result.unwrap_err(),
        ContractError::InvalidDrawState {
            expected: DrawState::UndelegationCompletedTokensCanBeBurned,
            actual: DrawState::TicketSalesOpen,
        }
    );
}

#[test]
fn test_bonus_rewards() {
    let (mut app, admin, _user) = ready(1000);

    let bonus_amount = 1000000u128;
    app.execute(
        ExecuteMsg::AddBonusRewardToThePool { amount: bonus_amount },
        &[coin(bonus_amount, FEE_DENOM)],
        &admin,
    )
    .unwrap();

    assert_eq!(app.bonus_rewards(), bonus_amount);
}

#[test]
fn test_ticket_burning_edge_cases() {
    let (mut app, _admin, user) = ready(1000);

    // burning before winner selection
    let result = app.execute(ExecuteMsg::BurnTickets { number_of_tickets: 5 }, &[], &user);
    assert!(result.is_err());

    let number_of_tickets = 10u128;
    let payment = number_of_tickets * TICKET_PRICE;
    app.execute(ExecuteMsg::BuyTicket { number_of_tickets }, &[coin(payment, FEE_DENOM)], &user)
        .unwrap();

    // burning more tickets than owned
    let result = app.execute(ExecuteMsg::BurnTickets { number_of_tickets: 20 }, &[], &user);
    assert!(result.is_err());
    assert_eq!(app.user_tickets(&user), 10);
}

#[test]
fn test_state_transitions() {
    let (mut app, admin, user) = ready(1000);

    let number_of_tickets = 1000u128;
    let payment = number_of_tickets * TICKET_PRICE;
    app.execute(ExecuteMsg::BuyTicket { number_of_tickets }, &[coin(payment, FEE_DENOM)], &user)
        .unwrap();

    assert_eq!(app.state(), DrawState::TicketsSoldOutAccumulationInProgress);

    app.execute(ExecuteMsg::UpdateDrawState { new_state: DrawState::DrawFinished }, &[], &admin)
        .unwrap();

    assert_eq!(app.state(), DrawState::DrawFinished);
}

#[test]
fn test_user_limits() {
    let mut app = App::new();
    let admin = app.init_account(&[coin(100_000_000_000_000_000_000, FEE_DENOM)]);
    let user1 = app.init_account(&[coin(100_000_000_000_000_000_000, FEE_DENOM)]);
    let user2 = app.init_account(&[coin(100_000_000_000_000_000_000, FEE_DENOM)]);
    app.store_and_instantiate(&admin, VALIDATOR.to_string(), 1000, TICKET_PRICE, 100).unwrap();

    // more than the max allowed
    let number_of_tickets = 101u128;
    let payment = number_of_tickets * TICKET_PRICE;
    let result =
        app.execute(ExecuteMsg::BuyTicket { number_of_tickets }, &[coin(payment, FEE_DENOM)], &user1);
    assert!(result.is_err());
    assert_eq!(
        result.unwrap_err(),
        ContractError::MaxTicketsPerUserReached { requested: 101, available: 100 }
    );

    let tickets_user1 = 50u128;
    let tickets_user2 = 50u128;
    app.execute(
        ExecuteMsg::BuyTicket { number_of_tickets: tickets_user1 },
        &[coin(tickets_user1 * TICKET_PRICE, FEE_DENOM)],
        &user1,
    )
    .unwrap();
    app.execute(
        ExecuteMsg::BuyTicket { number_of_tickets: tickets_user2 },
        &[coin(tickets_user2 * TICKET_PRICE, FEE_DENOM)],
        &user2,
    )
    .unwrap();

    assert_eq!(app.user_tickets(&user1), tickets_user1);
    assert_eq!(app.user_tickets(&user2), tickets_user2);
}

#[test]
fn test_rewards_distribution() {
    let (mut app, admin, user) = ready(1000);

    let number_of_tickets = 1000u128;
    let payment = number_of_tickets * TICKET_PRICE;
    app.execute(ExecuteMsg::BuyTicket { number_of_tickets }, &[coin(payment, FEE_DENOM)], &user)
        .unwrap();

    let bonus_amount = 1000000u128;
    app.execute(
        ExecuteMsg::AddBonusRewardToThePool { amount: bonus_amount },
        &[coin(bonus_amount, FEE_DENOM)],
        &admin,
    )
    .unwrap();
    app.increase_time(1001);

    let initial_balance = app.balance(&user, FEE_DENOM);

    app.execute(
        ExecuteMsg::SelectWinnerAndUndelegate { winner_address: user.clone() },
        &[],
        &admin,
    )
    .unwrap();

    app.increase_time(SECONDS_PER_DAY * UNDELEGATION_DAYS + 1000);

    app.execute(ExecuteMsg::SendFundsToWinner {}, &[], &admin).unwrap();

    let final_balance = app.balance(&user, FEE_DENOM);
    let received_rewards = final_balance - initial_balance;

    let (winner, rewards) = app.winner();
    assert_eq!(winner, Some(user.clone()));
    assert_eq!(
        received_rewards, rewards,
        "Expected rewards: {}, Received rewards: {}",
        rewards, received_rewards
    );

    assert_eq!(
        rewards,
        app.rewards_at_undelegation() + app.bonus_rewards(),
        "Total rewards should be sum of accumulated and bonus rewards"
    );
    // 1001 seconds at one and a half units a second, cut to whole units
    assert_eq!(app.rewards_at_undelegation(), 1501);
    assert_eq!(rewards, 1501 + 1000000);
}

#[test]
fn test_burn_tickets_and_refund() {
    let (mut app, admin, user) = ready(1000);

    let number_of_tickets = 1000u128;
    let payment = number_of_tickets * TICKET_PRICE;

    app.execute(ExecuteMsg::BuyTicket { number_of_tickets }, &[coin(payment, FEE_DENOM)], &user)
        .unwrap();

    assert_eq!(app.user_tickets(&user), number_of_tickets);

    app.execute(
        ExecuteMsg::SelectWinnerAndUndelegate { winner_address: user.clone() },
        &[],
        &admin,
    )
    .unwrap();

    app.increase_time(SECONDS_PER_DAY * UNDELEGATION_DAYS + 10000000);

    let bonus_amount = 1000000u128;
    app.execute(
        ExecuteMsg::AddBonusRewardToThePool { amount: bonus_amount },
        &[coin(bonus_amount, FEE_DENOM)],
        &admin,
    )
    .unwrap();

    app.execute(ExecuteMsg::SendFundsToWinner {}, &[], &admin).unwrap();

    let ticket_denom = format!("u{}-{}", TICKET_TOKEN.to_lowercase(), CONTRACT);
    let tickets_to_burn = Coin {
        amount: number_of_tickets * 10u128.pow(TICKET_PRECISION),
        denom: ticket_denom.clone(),
    };

    let initial_tickets = app.balance(&user, &ticket_denom);
    assert_eq!(initial_tickets, number_of_tickets * 10u128.pow(TICKET_PRECISION));
    let initial_balance = app.balance(&user, FEE_DENOM);

    app.execute(ExecuteMsg::BurnTickets { number_of_tickets }, &[tickets_to_burn], &user).unwrap();

    let final_tickets = app.balance(&user, &ticket_denom);
    assert_eq!(final_tickets, 0);

    assert_eq!(app.user_tickets(&user), 0);

    let final_balance = app.balance(&user, FEE_DENOM);
    let expected_refund = payment;
    let actual_refund = final_balance - initial_balance;
    assert!(
        actual_refund >= expected_refund * 99 / 100,
        "Expected refund: {}, Actual refund: {}",
        expected_refund,
        actual_refund
    );
    assert_eq!(actual_refund, expected_refund);
}

#[test]
fn test_ticket_token_balance() {
    let (mut app, _admin, user) = ready(1000);

    let number_of_tickets = 5u128;
    let payment = number_of_tickets * TICKET_PRICE;
    let response = app
        .execute(ExecuteMsg::BuyTicket { number_of_tickets }, &[coin(payment, FEE_DENOM)], &user)
        .unwrap();

    let ticket_denom = format!("u{}-{}", TICKET_TOKEN.to_lowercase(), CONTRACT);
    match &response.messages[1] {
        OutboundMsg::Mint { coin, recipient, .. } => {
            assert_eq!(coin.denom, ticket_denom);
            assert_eq!(*recipient, user);
        }
        other => panic!("{:?}", other),
    }

    let expected_amount = (number_of_tickets * 10u128.pow(TICKET_PRECISION)).to_string();
    assert_eq!(app.balance(&user, &ticket_denom).to_string(), expected_amount);

    assert_eq!(app.user_tickets(&user), number_of_tickets);
}

#[test]
fn test_ticket_purchase_limit() {
    let max_tickets = 3u128;
    let (mut app, _admin, user) = ready(max_tickets);

    for i in 1u32..=3 {
        let number_of_tickets = 1u128;
        let payment = number_of_tickets * TICKET_PRICE;
        app.execute(ExecuteMsg::BuyTicket { number_of_tickets }, &[coin(payment, FEE_DENOM)], &user)
            .unwrap();

        assert_eq!(app.user_tickets(&user), i as u128);
    }

    // one more than the limit
    let result = app.execute(
        ExecuteMsg::BuyTicket { number_of_tickets: 1 },
        &[coin(TICKET_PRICE, FEE_DENOM)],
        &user,
    );
    assert!(result.is_err());
    assert_eq!(
        result.unwrap_err(),
        ContractError::MaxTicketsPerUserReached { requested: 1, available: 0 }
    );

    assert_eq!(app.user_tickets(&user), max_tickets);
}

#[test]
fn test_query_ticket_holders() {
    let mut app = App::new();
    let admin = app.init_account(&[coin(100_000_000_000_000_000_000, FEE_DENOM)]);
    let user1 = app.init_account(&[coin(100_000_000_000_000_000_000, FEE_DENOM)]);
    let user2 = app.init_account(&[coin(100_000_000_000_000_000_000, FEE_DENOM)]);
    app.store_and_instantiate(&admin, VALIDATOR.to_string(), 1000, TICKET_PRICE, 100).unwrap();

    let tickets_user1 = 50u128;
    app.execute(
        ExecuteMsg::BuyTicket { number_of_tickets: tickets_user1 },
        &[coin(tickets_user1 * TICKET_PRICE, FEE_DENOM)],
        &user1,
    )
    .unwrap();

    let tickets_user2 = 30u128;
    app.execute(
        ExecuteMsg::BuyTicket { number_of_tickets: tickets_user2 },
        &[coin(tickets_user2 * TICKET_PRICE, FEE_DENOM)],
        &user2,
    )
    .unwrap();

    let holders = app.holders();
    assert_eq!(holders.total_holders, 2);
    assert_eq!(holders.holders.len(), 2);

    let user1_holder = holders.holders.iter().find(|h| h.address == user1).unwrap();
    assert_eq!(user1_holder.tickets, tickets_user1);
    assert_eq!(user1_holder.win_chance, "62.50%");

    let user2_holder = holders.holders.iter().find(|h| h.address == user2).unwrap();
    assert_eq!(user2_holder.tickets, tickets_user2);
    assert_eq!(user2_holder.win_chance, "37.50%");

    // a transfer of tickets between accounts, past the pool
    let user3 = app.init_account(&[coin(100_000_000_000_000_000_000, FEE_DENOM)]);
    let transfer_amount = 10u128;
    let ticket_denom = format!("u{}-{}", TICKET_TOKEN.to_lowercase(), CONTRACT);
    app.bank_send(
        &user1,
        &user3,
        Coin { amount: transfer_amount * 10u128.pow(TICKET_PRECISION), denom: ticket_denom },
    );

    let holders = app.holders();
    assert_eq!(holders.total_holders, 3);
    assert_eq!(holders.holders.len(), 3);

    let user3_holder = holders.holders.iter().find(|h| h.address == user3).unwrap();
    assert_eq!(user3_holder.tickets, transfer_amount);

    let user1_holder = holders.holders.iter().find(|h| h.address == user1).unwrap();
    assert_eq!(user1_holder.tickets, tickets_user1 - transfer_amount);

    // the pool's own count does not know of the transfer
    assert_eq!(app.user_tickets(&user1), tickets_user1);
    assert_eq!(app.user_tickets(&user3), 0);
}

#[test]
fn test_multiple_buyers_and_burn() {
    let mut app = App::new();
    let admin = app.init_account(&[coin(100_000_000_000_000_000_000, FEE_DENOM)]);
    app.store_and_instantiate(&admin, VALIDATOR.to_string(), 500, TICKET_PRICE, 1).unwrap();

    let mut users = Vec::new();
    for i in 0..500 {
        let user = app.init_account(&[coin(100_000_000_000_000_000_000, FEE_DENOM)]);
        users.push(user);
        app.execute(
            ExecuteMsg::BuyTicket { number_of_tickets: 1 },
            &[coin(TICKET_PRICE, FEE_DENOM)],
            &users[i],
        )
        .unwrap();
    }

    assert_eq!(app.tickets_sold(), 500);
    assert_eq!(app.state(), DrawState::TicketsSoldOutAccumulationInProgress);

    let holders = app.holders();
    assert_eq!(holders.total_holders, 500);
    assert_eq!(holders.holders.len(), 500);
    assert_eq!(holders.holders[0].win_chance, "0.20%");

    app.bank_send(&admin, CONTRACT, coin(1000000, FEE_DENOM));
    app.increase_time(3);

    app.execute(
        ExecuteMsg::SelectWinnerAndUndelegate { winner_address: users[0].clone() },
        &[],
        &admin,
    )
    .unwrap();

    app.increase_time(SECONDS_PER_DAY * UNDELEGATION_DAYS + 10000000);

    let accumulated_rewards = app.rewards_at_undelegation();
    let bonus_rewards = app.bonus_rewards();
    assert_eq!(accumulated_rewards, 4);
    assert_eq!(bonus_rewards, 0);

    app.execute(ExecuteMsg::SendFundsToWinner {}, &[], &admin).unwrap();

    let ticket_denom = format!("u{}-{}", TICKET_TOKEN.to_lowercase(), CONTRACT);
    for user in &users {
        let tickets_to_burn =
            Coin { amount: 10u128.pow(TICKET_PRECISION), denom: ticket_denom.clone() };
        app.execute(ExecuteMsg::BurnTickets { number_of_tickets: 1 }, &[tickets_to_burn], user)
            .unwrap();
    }

    assert_eq!(app.total_burned(), 500);
    assert_eq!(app.state(), DrawState::DrawFinished);

    let holders = app.holders();
    assert_eq!(holders.total_holders, 0);
    assert_eq!(holders.holders.len(), 0);

    for user in &users[1..] {
        let balance = app.balance(user, FEE_DENOM);
        let expected_balance = 100_000_000_000_000_000_000u128 - TICKET_PRICE;
        assert!(
            balance >= expected_balance * 99 / 100,
            "User {} balance {} is less than expected {}",
            user,
            balance,
            expected_balance
        );
        assert_eq!(balance, 100_000_000_000_000_000_000u128);
    }

    let winner_balance = app.balance(&users[0], FEE_DENOM);
    let expected_winner_balance =
        100_000_000_000_000_000_000u128 + accumulated_rewards + bonus_rewards;
    assert!(
        winner_balance >= expected_winner_balance * 99 / 100,
        "Winner balance {} is less than expected {}",
        winner_balance,
        expected_winner_balance
    );
    assert_eq!(winner_balance, expected_winner_balance);
}

#[test]
fn test_token_admin_transfer() {
    let mut app = App::new();
    let admin = app.init_account(&[coin(100_000_000_000_000_000_000, FEE_DENOM)]);
    let new_admin = app.init_account(&[coin(100_000_000_000_000_000_000, FEE_DENOM)]);
    app.store_and_instantiate(&admin, VALIDATOR.to_string(), 1000, TICKET_PRICE, 10).unwrap();

    let response = app
        .execute(ExecuteMsg::TransferTokenAdmin { new_admin: new_admin.clone() }, &[], &admin)
        .unwrap();
    assert_eq!(
        response.messages,
        vec![OutboundMsg::TransferAdmin {
            sender: CONTRACT.to_string(),
            account: new_admin.clone(),
            denom: format!("u{}-{}", TICKET_TOKEN.to_lowercase(), CONTRACT),
        }]
    );

    // the pool's owner is not the token's admin
    let mint_amount = 1000u128;
    let result = app.mint(
        &admin,
        Coin {
            denom: format!("u{}-{}", TICKET_TOKEN.to_lowercase(), CONTRACT),
            amount: mint_amount,
        },
        &new_admin,
    );
    assert!(result.is_err());
}

#[test]
fn test_owner_only_functions() {
    let mut app = App::new();
    let admin = app.init_account(&[coin(100_000_000_000_000_000_000, FEE_DENOM)]);
    let non_owner = app.init_account(&[coin(100_000_000_000_000_000_000, FEE_DENOM)]);
    app.store_and_instantiate(&admin, VALIDATOR.to_string(), 1000, TICKET_PRICE, 10).unwrap();

    let result = app.execute(
        ExecuteMsg::SelectWinnerAndUndelegate { winner_address: non_owner.clone() },
        &[],
        &non_owner,
    );
    assert!(
        result
            .unwrap_err()
            .to_string()
            .contains(ContractError::Unauthorized {}.to_string().as_str()),
        "Expected Unauthorized error for select_winner_and_undelegate"
    );

    let result = app.execute(
        ExecuteMsg::UpdateDrawState { new_state: DrawState::DrawFinished },
        &[],
        &non_owner,
    );
    assert!(
        result
            .unwrap_err()
            .to_string()
            .contains(ContractError::Unauthorized {}.to_string().as_str()),
        "Expected Unauthorized error for update_draw_state"
    );

    let result = app.execute(ExecuteMsg::SendFundsToWinner {}, &[], &non_owner);
    assert!(
        result
            .unwrap_err()
            .to_string()
            .contains(ContractError::Unauthorized {}.to_string().as_str()),
        "Expected Unauthorized error for send_funds"
    );

    let result = app.execute(
        ExecuteMsg::SetUndelegationTimestamp { timestamp: app.time + 1000 },
        &[],
        &non_owner,
    );
    assert!(
        result
            .unwrap_err()
            .to_string()
            .contains(ContractError::Unauthorized {}.to_string().as_str()),
        "Expected Unauthorized error for set_undelegation_timestamp"
    );

    let result = app.execute(
        ExecuteMsg::TransferTokenAdmin { new_admin: non_owner.clone() },
        &[],
        &non_owner,
    );
    assert!(
        result
            .unwrap_err()
            .to_string()
            .contains(ContractError::Unauthorized {}.to_string().as_str()),
        "Expected Unauthorized error for transfer_token_admin"
    );

    // the owner can call the owner-only functions
    app.execute(ExecuteMsg::UpdateDrawState { new_state: DrawState::DrawFinished }, &[], &admin)
        .unwrap();
    app.execute(ExecuteMsg::TransferTokenAdmin { new_admin: non_owner.clone() }, &[], &admin)
        .unwrap();
}

#[test]
fn test_update_ownership() {
    let mut app = App::new();
    let admin = app.init_account(&[coin(100_000_000_000_000_000_000, FEE_DENOM)]);
    let new_owner = app.init_account(&[coin(100_000_000_000_000_000_000, FEE_DENOM)]);
    let non_owner = app.init_account(&[coin(100_000_000_000_000_000_000, FEE_DENOM)]);
    app.store_and_instantiate(&admin, VALIDATOR.to_string(), 1000, TICKET_PRICE, 10).unwrap();

    // a non-owner cannot hand the ownership over
    let result = app.execute(
        ExecuteMsg::UpdateOwnership(OwnershipAction::TransferOwnership {
            new_owner: new_owner.clone(),
        }),
        &[],
        &non_owner,
    );
    assert!(
        result
            .unwrap_err()
            .to_string()
            .contains(ContractError::Unauthorized {}.to_string().as_str()),
        "Expected Unauthorized error for update_ownership"
    );

    app.execute(
        ExecuteMsg::UpdateOwnership(OwnershipAction::TransferOwnership {
            new_owner: new_owner.clone(),
        }),
        &[],
        &admin,
    )
    .unwrap();

    app.execute(ExecuteMsg::UpdateOwnership(OwnershipAction::AcceptOwnership), &[], &new_owner)
        .unwrap();

    // the new owner can make the owner's calls
    app.execute(
        ExecuteMsg::UpdateDrawState { new_state: DrawState::DrawFinished },
        &[],
        &new_owner,
    )
    .unwrap();

    // the old owner cannot
    let result = app.execute(
        ExecuteMsg::UpdateDrawState { new_state: DrawState::TicketSalesOpen },
        &[],
        &admin,
    );
    assert!(
        result
            .unwrap_err()
            .to_string()
            .contains(ContractError::Unauthorized {}.to_string().as_str()),
        "Expected Unauthorized error for old owner"
    );

    app.execute(ExecuteMsg::UpdateOwnership(OwnershipAction::RenounceOwnership), &[], &new_owner)
        .unwrap();

    // nobody can after the ownership is renounced
    let result = app.execute(
        ExecuteMsg::UpdateDrawState { new_state: DrawState::TicketSalesOpen },
        &[],
        &new_owner,
    );
    assert!(
        result
            .unwrap_err()
            .to_string()
            .contains(ContractError::Unauthorized {}.to_string().as_str()),
        "Expected Unauthorized error after renouncing ownership"
    );
    assert_eq!(app.state(), DrawState::DrawFinished);
}
