//! Failure kinds of the execution program.

use vstd::prelude::*;

verus! {

/// Reasons for which an evaluation or an execution step is abandoned.
#[derive(Clone, Copy, Debug, PartialEq, Eq, Structural)]
pub enum ErrorCode {
    /// Overflow, underflow or division by zero in price or trade arithmetic.
    CalculationError,
    /// The spread does not cover the costs, or the proceeds do not cover the repayment.
    InsufficientProfit,
    /// A loan or swap counterparty is malformed or did not deliver.
    InvalidTokenAccount,
    /// A hop returned less than its slippage bound allows.
    SlippageExceeded,
}

impl ErrorCode {
    /// The text shown for this failure.
    pub open spec fn spec_message(self) -> Seq<char> {
        match self {
            ErrorCode::CalculationError => "Error in calculation"@,
            ErrorCode::InsufficientProfit => "Insufficient profit for arbitrage"@,
            ErrorCode::InvalidTokenAccount => "Invalid token account"@,
            ErrorCode::SlippageExceeded => "Slippage tolerance exceeded"@,
        }
    }

    /// Returns the text shown for this failure.
    pub fn message(&self) -> (text: &'static str)
        ensures
            text@ == self.spec_message(),
    {
        match self {
            ErrorCode::CalculationError => "Error in calculation",
            ErrorCode::InsufficientProfit => "Insufficient profit for arbitrage",
            ErrorCode::InvalidTokenAccount => "Invalid token account",
            ErrorCode::SlippageExceeded => "Slippage tolerance exceeded",
        }
    }
}

} // verus!
