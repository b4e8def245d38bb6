use vstd::prelude::*;

verus! {

/// Why attached funds were refused at an entry point.
#[derive(Debug, Clone, Copy, PartialEq, Eq, Structural)]
pub enum ValidationKind {
    /// The seed funds are not exactly one coin of the required denomination and amount.
    Instantiation,
    /// The deposit is not exactly one coin of the settlement denomination.
    Funds,
    /// The deposit is below the engine's minimum amount.
    BelowMinimum,
}

/// Every failure aborts the whole invocation: no state change, no transfer.
#[derive(Debug, Clone, Copy, PartialEq, Eq, Structural)]
pub enum ContractError {
    ValidationError(ValidationKind),
    ArithmeticOverflow,
    InsufficientBalance,
    NothingToRelease,
    NothingToWithdraw,
    Unauthorized,
    RateUnavailable,
    ConversionOverflow,
    UnknownMessage,
    NotFound,
}

} // verus!
