//! A no-loss lottery pool: tickets are bought with a base asset that is staked,
//! the staking yield goes to one winner, and every ticket can be redeemed for
//! the price that was paid for it.
//!
//! - `state`: the pool, its counters and its books, and what it means for the
//!   books to agree;
//! - `ledger`: amounts by address, listed in one fixed order;
//! - `contract`: the calls that change a pool, each with the reasons for which
//!   it is rejected, its effect and its messages;
//! - `query`: the questions that a pool answers;
//! - `laws`: what holds over more than one call;
//! - `chain`, `msg`, `error`: the values that go in and come out;
//! - `text`: numbers as decimal text;
//! - `outside`: the calls into `cosmwasm_std`, `cw_ownable` and the standard
//!   library that are taken on trust.

pub mod chain;
pub mod contract;
pub mod error;
pub mod laws;
pub mod ledger;
pub mod msg;
pub mod outside;
pub mod query;
pub mod state;
pub mod text;
