//! The calls into `cosmwasm_std` and `cw_ownable`, and the one call of the
//! standard library that has no specification. Their contracts are taken on
//! trust.

use crate::chain::Decimal256;
use crate::text::parsed_u128;
use cosmwasm_std::{StdError, Uint128, Uint256};
use cw_ownable::OwnershipError;
use std::str::FromStr;
use vstd::prelude::*;

verus! {

/// The error type of `cosmwasm_std`, carried through and never looked into.
#[verifier::external_type_specification]
#[verifier::external_body]
pub struct ExStdError(cosmwasm_std::StdError);

/// The error type of `cw_ownable`, carried through and never looked into.
#[verifier::external_type_specification]
#[verifier::external_body]
pub struct ExOwnershipError(cw_ownable::OwnershipError);

/// The lower-case form of a text, as the standard library's `to_lowercase`
/// gives it.
pub uninterp spec fn lowercase(s: Seq<char>) -> Seq<char>;

/// The count of 10^-18 units that a decimal holds.
pub open spec fn atomics(d: Decimal256) -> nat {
    d.high as nat * 0x1_0000_0000_0000_0000_0000_0000_0000_0000 + d.low as nat
}

/// The whole units of a decimal, where they fit into 128 bits.
pub open spec fn floored(d: Decimal256) -> Option<u128> {
    let whole = atomics(d) / 1_000_000_000_000_000_000;
    if whole <= u128::MAX {
        Some(whole as u128)
    } else {
        None
    }
}

/// `Uint128::from_str`, which reads with the standard library's parser of
/// unsigned numbers: the text is a number where it is an optional `+` and
/// then ASCII digits only, at least one, whose value fits into 128 bits; any
/// other text is an error.
#[verifier::external_body]
pub(crate) fn parse_uint128(s: &str) -> (r: Result<u128, StdError>)
    ensures
        match r {
            Ok(v) => parsed_u128(s@) == Some(v),
            Err(_) => parsed_u128(s@) is None,
        },
{
    match Uint128::from_str(s) {
        Ok(v) => Ok(v.u128()),
        Err(e) => Err(e),
    }
}

/// `Decimal256::to_uint_floor`, then `Uint128::try_from`: the decimal with the
/// given count of 10^-18 units is cut to its whole units, and these are handed
/// out where they fit into 128 bits.
#[verifier::external_body]
pub(crate) fn decimal256_floor(d: &Decimal256) -> (r: Option<u128>)
    ensures
        r == floored(*d),
{
    let mut bytes = [0u8; 32];
    bytes[..16].copy_from_slice(&d.high.to_be_bytes());
    bytes[16..].copy_from_slice(&d.low.to_be_bytes());
    let whole = cosmwasm_std::Decimal256::new(Uint256::from_be_bytes(bytes)).to_uint_floor();
    match Uint128::try_from(whole) {
        Ok(v) => Some(v.u128()),
        Err(_) => None,
    }
}

/// `StdError::not_found`: the error of `cosmwasm_std` for a value that was
/// asked for and is not there. Nothing is claimed of it.
#[verifier::external_body]
pub(crate) fn std_not_found(kind: &str) -> StdError {
    StdError::not_found(kind)
}

/// The `Display` of `StdError`: the message of an error of `cosmwasm_std`.
/// Nothing is claimed of it.
#[verifier::external_body]
pub(crate) fn std_error_message(e: &StdError) -> String {
    e.to_string()
}

/// The `Display` of `OwnershipError`: the message of an error of
/// `cw_ownable`. Nothing is claimed of it.
#[verifier::external_body]
pub(crate) fn ownership_error_message(e: &OwnershipError) -> String {
    e.to_string()
}

/// `str::to_lowercase` of the standard library.
#[verifier::external_body]
pub(crate) fn str_to_lowercase(s: &str) -> (r: String)
    ensures
        r@ == lowercase(s@),
{
    s.to_lowercase()
}

} // verus!
