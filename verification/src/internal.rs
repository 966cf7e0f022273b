use vstd::prelude::*;
use crate::errors::MintingError;
use crate::types::Balance;

verus! {

/// Supply check: `mint_amount` more identifiers must fit the integer
/// domain of the counter and stay at or below the cap.  Decides the whole
/// batch before anything is issued.
pub(crate) fn check_amount(last_token_id: u64, max_supply: u64, mint_amount: u64) -> (r: Result<
    (),
    MintingError,
>)
    ensures
        r == (if last_token_id + mint_amount > u64::MAX {
            Err::<(), MintingError>(MintingError::ArithmeticOverflow)
        } else if last_token_id + mint_amount > max_supply {
            Err::<(), MintingError>(MintingError::SupplyExceeded)
        } else {
            Ok::<(), MintingError>(())
        }),
{
    match last_token_id.checked_add(mint_amount) {
        None => Err(MintingError::ArithmeticOverflow),
        Some(next) => {
            if next > max_supply {
                Err(MintingError::SupplyExceeded)
            } else {
                Ok(())
            }
        },
    }
}

/// Payment check: the transferred value must equal `price_per_mint *
/// mint_amount` exactly — neither under- nor overpayment is absorbed — and
/// the product must not overflow the currency domain.
pub(crate) fn check_value(
    price_per_mint: Balance,
    transferred_value: Balance,
    mint_amount: u64,
) -> (r: Result<(), MintingError>)
    ensures
        r == (if price_per_mint * mint_amount > u128::MAX {
            Err::<(), MintingError>(MintingError::ArithmeticOverflow)
        } else if transferred_value != price_per_mint * mint_amount {
            Err::<(), MintingError>(MintingError::InsufficientPayment)
        } else {
            Ok::<(), MintingError>(())
        }),
{
    match price_per_mint.checked_mul(mint_amount as u128) {
        None => Err(MintingError::ArithmeticOverflow),
        Some(expected) => {
            if transferred_value != expected {
                Err(MintingError::InsufficientPayment)
            } else {
                Ok(())
            }
        },
    }
}

} // verus!
