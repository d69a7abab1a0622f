//! Fixed-point prices: the amount received per unit given, scaled by
//! [`PRICE_PRECISION`] so that venues compare exactly as integers.

use crate::error::ErrorCode;
use vstd::prelude::*;

verus! {

/// Scale of every price: a price of `PRICE_PRECISION` means one unit out per unit in.
pub const PRICE_PRECISION: u64 = 1_000_000;

/// Whether the price of `output_amount` for `input_amount` can be represented:
/// the input is not zero and the scaled output fits in 64 bits.
pub open spec fn price_defined(output_amount: u64, input_amount: u64) -> bool {
    input_amount != 0 && output_amount * PRICE_PRECISION <= u64::MAX
}

/// The scaled price `output_amount * PRICE_PRECISION / input_amount`, truncated toward zero.
pub open spec fn spec_price(output_amount: u64, input_amount: u64) -> int {
    (output_amount * PRICE_PRECISION) / (input_amount as int)
}

/// Computes the scaled price of `output_amount` received for `input_amount` given.
///
/// Multiplies first and divides second, both checked. Fails with
/// `CalculationError` exactly when the input amount is zero or the scaled
/// output does not fit in 64 bits.
pub fn price(output_amount: u64, input_amount: u64) -> (result: Result<u64, ErrorCode>)
    ensures
        match result {
            Ok(scaled) => price_defined(output_amount, input_amount) && scaled == spec_price(
                output_amount,
                input_amount,
            ),
            Err(code) => !price_defined(output_amount, input_amount) && code
                == ErrorCode::CalculationError,
        },
{
    let scaled: u64 = match output_amount.checked_mul(PRICE_PRECISION) {
        Some(v) => v,
        None => {
            return Err(ErrorCode::CalculationError);
        },
    };
    match scaled.checked_div(input_amount) {
        Some(v) => Ok(v),
        None => Err(ErrorCode::CalculationError),
    }
}

} // verus!
