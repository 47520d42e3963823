//! The reasons for which the pool rejects a call.

use crate::outside::{ownership_error_message, std_error_message};
use crate::state::DrawState;
use crate::text::{decimal_string, decimal_text};
use cosmwasm_std::StdError;
use cw_ownable::OwnershipError;
use vstd::prelude::*;
use vstd::string::StringExecFns;

verus! {

/// Why a call was rejected. A rejected call leaves the pool as it was.
#[derive(Debug, PartialEq)]
pub enum ContractError {
    /// An error of `cw_ownable`, passed on as it came. The pool's own calls
    /// give none: they answer whoever may not make a call with `Unauthorized`.
    Ownership(OwnershipError),
    /// An error of `cosmwasm_std`, passed on as it came.
    Std(StdError),
    Unauthorized {  },
    InvalidTicketAmount {  },
    InvalidTicketPrice {  },
    TicketSalesClosed {  },
    NotEnoughTicketsLeft { requested: u128, available: u128 },
    MaxTicketsPerUserReached { requested: u128, available: u128 },
    NoFunds {  },
    InsufficientFunds { required: u128, provided: u128 },
    NoTicketsForAddress {  },
    InvalidDrawState { expected: DrawState, actual: DrawState },
    NotEnoughTickets { requested: u128, available: u128 },
    UndelegationPeriodNotCompleted { current_timestamp: u64, undelegation_timestamp: u64 },
    NoUndelegationInProgress {  },
    InvalidStateTransition { from: String, to: String },
    CannotCloseTicketSales {  },
    UseSelectWinnerFunction {  },
    NotAllTicketsBurned {  },
    InvalidMigration { current_name: String, current_version: String },
    InvalidTokenParameters {  },
    TokenAlreadyIssued {  },
    TokenQueryFailed {  },
    DelegationFailed {  },
    UndelegationFailed {  },
    RewardsDistributionFailed {  },
    InvalidAddress { address: String },
    ContractPaused {  },
    Overflow {  },
    RewardsCalculationFailed {  },
    InvalidQuery {  },
    NoWinnerSelected {  },
    NoRewardsToSend {  },
    WinnerAlreadySelected {  },
}

/// Two texts in a frame: `head`, `first`, `middle`, `second`, `tail`.
pub open spec fn framed(
    head: Seq<char>,
    first: Seq<char>,
    middle: Seq<char>,
    second: Seq<char>,
    tail: Seq<char>,
) -> Seq<char> {
    head + first + middle + second + tail
}

/// Writes two texts into a frame.
pub fn frame(head: &str, first: &str, middle: &str, second: &str, tail: &str) -> (r: String)
    ensures
        r@ == framed(head@, first@, middle@, second@, tail@),
{
    let mut r = String::from_str(head);
    r.append(first);
    r.append(middle);
    r.append(second);
    r.append(tail);
    r
}

/// Writes two numbers into a frame.
pub fn frame_numbers(head: &str, first: u128, middle: &str, second: u128, tail: &str) -> (r: String)
    ensures
        r@ == framed(
            head@,
            decimal_text(first as nat),
            middle@,
            decimal_text(second as nat),
            tail@,
        ),
{
    let first = decimal_string(first);
    let second = decimal_string(second);
    frame(head, first.as_str(), middle, second.as_str(), tail)
}

impl ContractError {
    /// The message of an error of the pool's own: what the error says, with
    /// its numbers in base ten, its phases by name and its texts in double
    /// quotes.
    pub open spec fn message(self) -> Seq<char> {
        match self {
            ContractError::Ownership(_) => Seq::empty(),
            ContractError::Std(_) => Seq::empty(),
            ContractError::Unauthorized {  } => "Unauthorized"@,
            ContractError::InvalidTicketAmount {  } => "Invalid ticket amount"@,
            ContractError::InvalidTicketPrice {  } => "Invalid ticket price"@,
            ContractError::TicketSalesClosed {  } => "Ticket sales are closed"@,
            ContractError::NotEnoughTicketsLeft { requested, available } => framed(
                "Not enough tickets left (requested: "@,
                decimal_text(requested as nat),
                ", available: "@,
                decimal_text(available as nat),
                ")"@,
            ),
            ContractError::MaxTicketsPerUserReached { requested, available } => framed(
                "Max tickets per user reached (requested: "@,
                decimal_text(requested as nat),
                ", available: "@,
                decimal_text(available as nat),
                ")"@,
            ),
            ContractError::NoFunds {  } => "No funds sent"@,
            ContractError::InsufficientFunds { required, provided } => framed(
                "Insufficient funds (required: "@,
                decimal_text(required as nat),
                ", provided: "@,
                decimal_text(provided as nat),
                ")"@,
            ),
            ContractError::NoTicketsForAddress {  } => "No tickets found for address"@,
            ContractError::InvalidDrawState { expected, actual } => framed(
                "Invalid draw state (expected: "@,
                expected.name_text(),
                ", actual: "@,
                actual.name_text(),
                ")"@,
            ),
            ContractError::NotEnoughTickets { requested, available } => framed(
                "Not enough tickets (requested: "@,
                decimal_text(requested as nat),
                ", available: "@,
                decimal_text(available as nat),
                ")"@,
            ),
            ContractError::UndelegationPeriodNotCompleted {
                current_timestamp,
                undelegation_timestamp,
            } => framed(
                "Undelegation period not completed (current timestamp: "@,
                decimal_text(current_timestamp as nat),
                ", undelegation timestamp: "@,
                decimal_text(undelegation_timestamp as nat),
                ")"@,
            ),
            ContractError::NoUndelegationInProgress {  } => "No undelegation in progress"@,
            ContractError::InvalidStateTransition { from, to } => framed(
                "Invalid state transition (from: \""@,
                from@,
                "\", to: \""@,
                to@,
                "\")"@,
            ),
            ContractError::CannotCloseTicketSales {  } =>
                "Cannot close ticket sales until all tickets are sold"@,
            ContractError::UseSelectWinnerFunction {  } =>
                "Use select_winner function to set winner and start undelegation"@,
            ContractError::NotAllTicketsBurned {  } => "Not all tickets have been burned"@,
            ContractError::InvalidMigration { current_name, current_version } => framed(
                "Invalid migration (current contract: \""@,
                current_name@,
                "\", current version: \""@,
                current_version@,
                "\")"@,
            ),
            ContractError::InvalidTokenParameters {  } => "Invalid token parameters"@,
            ContractError::TokenAlreadyIssued {  } => "Token already issued"@,
            ContractError::TokenQueryFailed {  } => "Failed to query token metadata"@,
            ContractError::DelegationFailed {  } => "Failed to delegate tokens"@,
            ContractError::UndelegationFailed {  } => "Failed to undelegate tokens"@,
            ContractError::RewardsDistributionFailed {  } => "Failed to distribute rewards"@,
            ContractError::InvalidAddress { address } => framed(
                "Invalid address: \""@,
                address@,
                "\""@,
                Seq::empty(),
                Seq::empty(),
            ),
            ContractError::ContractPaused {  } => "Contract is paused"@,
            ContractError::Overflow {  } => "Overflow"@,
            ContractError::RewardsCalculationFailed {  } =>
                "Failed to calculate accumulated rewards"@,
            ContractError::InvalidQuery {  } => "Invalid query"@,
            ContractError::NoWinnerSelected {  } => "No winner has been selected yet"@,
            ContractError::NoRewardsToSend {  } => "No rewards to send"@,
            ContractError::WinnerAlreadySelected {  } => "A winner has already been selected"@,
        }
    }

    /// The message of the error. An error of `cosmwasm_std` or of
    /// `cw_ownable` speaks for itself.
    pub fn to_string(&self) -> (r: String)
        ensures
            !(self is Std) && !(self is Ownership) ==> r@ == self.message(),
    {
        match self {
            ContractError::Ownership(e) => ownership_error_message(e),
            ContractError::Std(e) => std_error_message(e),
            ContractError::Unauthorized {  } => String::from_str("Unauthorized"),
            ContractError::InvalidTicketAmount {  } => String::from_str("Invalid ticket amount"),
            ContractError::InvalidTicketPrice {  } => String::from_str("Invalid ticket price"),
            ContractError::TicketSalesClosed {  } => String::from_str("Ticket sales are closed"),
            ContractError::NotEnoughTicketsLeft { requested, available } => frame_numbers(
                "Not enough tickets left (requested: ",
                *requested,
                ", available: ",
                *available,
                ")",
            ),
            ContractError::MaxTicketsPerUserReached { requested, available } => frame_numbers(
                "Max tickets per user reached (requested: ",
                *requested,
                ", available: ",
                *available,
                ")",
            ),
            ContractError::NoFunds {  } => String::from_str("No funds sent"),
            ContractError::InsufficientFunds { required, provided } => frame_numbers(
                "Insufficient funds (required: ",
                *required,
                ", provided: ",
                *provided,
                ")",
            ),
            ContractError::NoTicketsForAddress {  } => String::from_str(
                "No tickets found for address",
            ),
            ContractError::InvalidDrawState { expected, actual } => frame(
                "Invalid draw state (expected: ",
                expected.name(),
                ", actual: ",
                actual.name(),
                ")",
            ),
            ContractError::NotEnoughTickets { requested, available } => frame_numbers(
                "Not enough tickets (requested: ",
                *requested,
                ", available: ",
                *available,
                ")",
            ),
            ContractError::UndelegationPeriodNotCompleted {
                current_timestamp,
                undelegation_timestamp,
            } => frame_numbers(
                "Undelegation period not completed (current timestamp: ",
                *current_timestamp as u128,
                ", undelegation timestamp: ",
                *undelegation_timestamp as u128,
                ")",
            ),
            ContractError::NoUndelegationInProgress {  } => String::from_str(
                "No undelegation in progress",
            ),
            ContractError::InvalidStateTransition { from, to } => frame(
                "Invalid state transition (from: \"",
                from.as_str(),
                "\", to: \"",
                to.as_str(),
                "\")",
            ),
            ContractError::CannotCloseTicketSales {  } => String::from_str(
                "Cannot close ticket sales until all tickets are sold",
            ),
            ContractError::UseSelectWinnerFunction {  } => String::from_str(
                "Use select_winner function to set winner and start undelegation",
            ),
            ContractError::NotAllTicketsBurned {  } => String::from_str(
                "Not all tickets have been burned",
            ),
            ContractError::InvalidMigration { current_name, current_version } => frame(
                "Invalid migration (current contract: \"",
                current_name.as_str(),
                "\", current version: \"",
                current_version.as_str(),
                "\")",
            ),
            ContractError::InvalidTokenParameters {  } => String::from_str(
                "Invalid token parameters",
            ),
            ContractError::TokenAlreadyIssued {  } => String::from_str("Token already issued"),
            ContractError::TokenQueryFailed {  } => String::from_str(
                "Failed to query token metadata",
            ),
            ContractError::DelegationFailed {  } => String::from_str("Failed to delegate tokens"),
            ContractError::UndelegationFailed {  } => String::from_str(
                "Failed to undelegate tokens",
            ),
            ContractError::RewardsDistributionFailed {  } => String::from_str(
                "Failed to distribute rewards",
            ),
            ContractError::InvalidAddress { address } => {
                let r = frame("Invalid address: \"", address.as_str(), "\"", "", "");
                proof {
                    reveal_strlit("");
                    assert(""@ =~= Seq::<char>::empty());
                }
                r
            },
            ContractError::ContractPaused {  } => String::from_str("Contract is paused"),
            ContractError::Overflow {  } => String::from_str("Overflow"),
            ContractError::RewardsCalculationFailed {  } => String::from_str(
                "Failed to calculate accumulated rewards",
            ),
            ContractError::InvalidQuery {  } => String::from_str("Invalid query"),
            ContractError::NoWinnerSelected {  } => String::from_str(
                "No winner has been selected yet",
            ),
            ContractError::NoRewardsToSend {  } => String::from_str("No rewards to send"),
            ContractError::WinnerAlreadySelected {  } => String::from_str(
                "A winner has already been selected",
            ),
        }
    }
}

} // verus!
