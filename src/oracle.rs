use vstd::prelude::*;

use cosmwasm_std::{Decimal256, Uint128, Uint256};

use crate::error::ContractError;

verus! {

/// Atomic units of an exchange rate per whole unit: rates carry eighteen decimals.
pub const RATE_SCALE: u128 = 1_000_000_000_000_000_000;

/// Settlement units per unit of the incoming asset, as the fixed-point number
/// `atomics / RATE_SCALE`. Obtained afresh for each conversion, never stored.
#[derive(Debug, Clone, Copy, PartialEq, Eq, Structural)]
pub struct ExchangeRate {
    pub atomics: u128,
}

/// `amount * rate`, rounded down, computed without bound.
pub open spec fn converted(amount: u128, rate: ExchangeRate) -> int {
    (amount as int * rate.atomics as int) / (RATE_SCALE as int)
}

/// What converting `amount` gives where the oracle answered `rate`, `None`
/// standing for a failed query.
pub open spec fn conversion_result(amount: u128, rate: Option<ExchangeRate>) -> Result<
    u128,
    ContractError,
> {
    match rate {
        None => Err(ContractError::RateUnavailable),
        Some(q) => if q.atomics == 0 {
            Err(ContractError::RateUnavailable)
        } else if converted(amount, q) > u128::MAX {
            Err(ContractError::ConversionOverflow)
        } else {
            Ok(converted(amount, q) as u128)
        },
    }
}

/// Relies on cosmwasm_std's `Uint256::checked_mul_floor` with a `Decimal256`,
/// which multiplies in 512 bits and rounds down, and on `Uint128::try_from(Uint256)`,
/// which fails exactly where the value does not fit.
#[verifier::external_body]
fn mul_rate_floor(amount: u128, atomics: u128) -> (r: Option<u128>)
    ensures
        converted(amount, ExchangeRate { atomics }) <= u128::MAX ==> r == Some(
            converted(amount, ExchangeRate { atomics }) as u128,
        ),
        converted(amount, ExchangeRate { atomics }) > u128::MAX ==> r is None,
{
    let rate = Decimal256::new(Uint256::from(atomics));
    match Uint256::from(amount).checked_mul_floor(rate) {
        Ok(product) => match Uint128::try_from(product) {
            Ok(v) => Some(v.u128()),
            Err(_) => None,
        },
        Err(_) => None,
    }
}

/// Converts `amount` of the incoming asset into settlement units at the rate the
/// oracle answered. A failed query or a zero rate gives `RateUnavailable`; a
/// result beyond `u128` gives `ConversionOverflow`; otherwise the product is
/// rounded down, computed wide enough that it never wraps.
pub fn convert(amount: u128, rate: Option<ExchangeRate>) -> (r: Result<u128, ContractError>)
    ensures
        r == conversion_result(amount, rate),
{
    match rate {
        None => Err(ContractError::RateUnavailable),
        Some(q) => {
            if q.atomics == 0 {
                return Err(ContractError::RateUnavailable);
            }
            match mul_rate_floor(amount, q.atomics) {
                Some(v) => Ok(v),
                None => Err(ContractError::ConversionOverflow),
            }
        },
    }
}

} // verus!
