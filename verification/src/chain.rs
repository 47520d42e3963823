//! Plain values for what the chain hands to the pool and what the pool hands
//! back: coins, the call's environment, and the outbound messages.

use crate::msg::TokenHolder;
use crate::text::{decimal_string, decimal_text, parsed_u128};
use cosmwasm_std::StdError;
use vstd::prelude::*;
use vstd::string::StringExecFns;

verus! {

/// The number of decimal places of the ticket token.
pub const TICKET_PRECISION: u32 = 6;

/// The smallest units of the ticket token that make one ticket.
pub const TICKET_UNIT: u128 = 1_000_000;

/// The unbonding period of the staking facility, in seconds: seven days.
pub const UNDELEGATION_PERIOD_SECONDS: u64 = 604_800;

/// An amount of one denomination.
#[derive(Debug, Clone, PartialEq, Eq)]
pub struct Coin {
    pub denom: String,
    pub amount: u128,
}

/// A fixed-point number with 18 fractional digits, held as its 256-bit count
/// of 10^-18 units: `high * 2^128 + low`.
#[derive(Debug, Clone, Copy, PartialEq, Eq)]
pub struct Decimal256 {
    pub high: u128,
    pub low: u128,
}

/// A fractional amount of one denomination, as the staking facility reports
/// rewards.
#[derive(Debug, Clone, PartialEq, Eq)]
pub struct DecCoin {
    pub denom: String,
    pub amount: Decimal256,
}

/// Where and when a call runs.
#[derive(Debug, Clone, PartialEq, Eq)]
pub struct Env {
    /// The block time, in seconds since the epoch.
    pub block_time: u64,
    /// The pool's own address.
    pub contract_address: String,
}

/// Who calls, and with which funds.
#[derive(Debug, Clone, PartialEq, Eq)]
pub struct MessageInfo {
    pub sender: String,
    pub funds: Vec<Coin>,
}

/// What the staking facility and the token facility answered when they were
/// asked for a call, each answer or the error of asking. A call looks at an
/// answer only where it needs it, and fails with the error of asking there.
#[derive(Debug, PartialEq)]
pub struct Facilities {
    /// The balance of the ticket token, in smallest units and as the token
    /// facility writes it, of the account in question: the caller of a call,
    /// or the account that is asked about.
    pub ticket_balance: Result<String, StdError>,
    /// The rewards that the pool's delegation has accrued.
    pub delegation_rewards: Result<Vec<DecCoin>, StdError>,
    /// The pool's delegation, where it has one.
    pub delegation: Result<Option<Coin>, StdError>,
    /// The accounts that hold the ticket token, as the token facility lists
    /// them.
    pub token_holders: Vec<TokenHolder>,
}

/// The rewards that the staking facility reported, and none where asking
/// failed.
pub open spec fn reported(rewards: Result<Vec<DecCoin>, StdError>) -> Seq<DecCoin> {
    match rewards {
        Ok(coins) => coins@,
        Err(_) => Seq::empty(),
    }
}

/// The delegation that the staking facility reported, and none where asking
/// failed.
pub open spec fn staked(delegation: Result<Option<Coin>, StdError>) -> Option<Coin> {
    match delegation {
        Ok(d) => d,
        Err(_) => None,
    }
}

/// Whether `held` is what reading the balance `balance` gives: the number
/// that the text writes, the error of reading a text that is no number, or
/// the error of asking for the balance.
pub open spec fn read_as(balance: Result<String, StdError>, held: Result<u128, StdError>) -> bool {
    match balance {
        Ok(text) => match held {
            Ok(units) => parsed_u128(text@) == Some(units),
            Err(_) => parsed_u128(text@) is None,
        },
        Err(e) => held == Err::<u128, StdError>(e),
    }
}

/// One reading of the balance `balance`, whichever error reading a text that
/// is no number gives.
pub open spec fn a_reading(balance: Result<String, StdError>) -> Result<u128, StdError> {
    choose|held: Result<u128, StdError>| read_as(balance, held)
}

/// Every balance has a reading.
pub proof fn lemma_a_reading(balance: Result<String, StdError>)
    ensures
        read_as(balance, a_reading(balance)),
{
    match balance {
        Ok(text) => match parsed_u128(text@) {
            Some(units) => {
                assert(read_as(balance, Ok(units)));
            },
            None => {
                let e: StdError = vstd::pervasive::arbitrary();
                assert(read_as(balance, Err(e)));
            },
        },
        Err(e) => {
            assert(read_as(balance, Err(e)));
        },
    }
}

/// What the holder of a token's administration may do with the token.
#[derive(Clone, Copy, Debug, PartialEq, Eq, Structural)]
pub enum Feature {
    Minting,
    Burning,
}

/// A message that the pool asks the chain to apply together with its own
/// change of state.
#[derive(Debug, Clone, PartialEq, Eq)]
pub enum OutboundMsg {
    /// Issue a token on the terms given.
    Issue {
        issuer: String,
        symbol: String,
        subunit: String,
        precision: u32,
        initial_amount: u128,
        description: String,
        features: Vec<Feature>,
        burn_rate: String,
        send_commission_rate: String,
        uri: String,
        uri_hash: String,
    },
    /// Stake `amount` with `validator`.
    Delegate { validator: String, amount: Coin },
    /// Unstake `amount` from `validator`.
    Undelegate { validator: String, amount: Coin },
    /// Mint `coin` of the ticket token to `recipient`.
    Mint { sender: String, coin: Coin, recipient: String },
    /// Pay `amount` from the pool's balance to `to_address`.
    Send { to_address: String, amount: Coin },
    /// Hand the administration of the token `denom` to `account`.
    TransferAdmin { sender: String, account: String, denom: String },
}

/// A line of the record of a call: what is recorded, and its value as text.
#[derive(Debug, Clone, PartialEq, Eq)]
pub struct Attribute {
    pub key: String,
    pub value: String,
}

/// What a handled call gives back to the chain: the messages to apply, and
/// the record of the call.
#[derive(Debug, Clone, PartialEq, Eq)]
pub struct Response {
    pub messages: Vec<OutboundMsg>,
    pub attributes: Vec<Attribute>,
}

/// What the lines of a record say: each key with its value.
pub open spec fn attributes_view(attributes: Seq<Attribute>) -> Seq<(Seq<char>, Seq<char>)> {
    Seq::new(attributes.len(), |i: int| (attributes[i].key@, attributes[i].value@))
}

/// Adds a line to a record.
pub fn push_attribute(attributes: &mut Vec<Attribute>, key: &str, value: &str)
    ensures
        attributes_view(final(attributes)@) == attributes_view(old(attributes)@).push(
            (key@, value@),
        ),
{
    attributes.push(Attribute { key: String::from_str(key), value: String::from_str(value) });
    assert(attributes_view(attributes@) =~= attributes_view(old(attributes)@).push(
        (key@, value@),
    ));
}

/// Adds a line with a number, written in base ten, to a record.
pub fn push_number(attributes: &mut Vec<Attribute>, key: &str, value: u128)
    ensures
        attributes_view(final(attributes)@) == attributes_view(old(attributes)@).push(
            (key@, decimal_text(value as nat)),
        ),
{
    let text = decimal_string(value);
    push_attribute(attributes, key, text.as_str());
}

/// What is left of `limit` once `used` is taken, and nothing where more is
/// used than the limit allows.
pub open spec fn room(limit: u128, used: u128) -> u128 {
    if used <= limit {
        (limit - used) as u128
    } else {
        0
    }
}

/// The amount of the first coin of `funds` in the denomination `denom`.
pub open spec fn first_amount(funds: Seq<Coin>, denom: Seq<char>) -> Option<u128>
    decreases funds.len(),
{
    if funds.len() == 0 {
        None
    } else if funds[0].denom@ == denom {
        Some(funds[0].amount)
    } else {
        first_amount(funds.skip(1), denom)
    }
}

/// Looks for the first coin of `funds` in the denomination `denom`.
pub fn find_amount(funds: &Vec<Coin>, denom: &String) -> (r: Option<u128>)
    ensures
        r == first_amount(funds@, denom@),
{
    let mut i: usize = 0;
    assert(funds@.skip(0) =~= funds@);
    while i < funds.len()
        invariant
            i <= funds@.len(),
            first_amount(funds@, denom@) == first_amount(funds@.skip(i as int), denom@),
        decreases funds@.len() - i,
    {
        if funds[i].denom == *denom {
            return Some(funds[i].amount);
        }
        assert(funds@.skip(i as int).skip(1) =~= funds@.skip(i + 1));
        i += 1;
    }
    None
}

} // verus!
