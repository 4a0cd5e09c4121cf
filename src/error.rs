use vstd::prelude::*;

verus! {

/// Why an operation was refused. Every error aborts the whole operation.
#[derive(Clone, Copy, Debug, PartialEq, Eq, Structural)]
pub enum ErrorCode {
    /// Reserved: a debit larger than the balance, raised by the token ledger.
    InsufficientFunds,
    MaxPlanetsReached,
    RewardNotReady,
    InvalidCompoundLevel,
    Unauthorized,
    InvalidTaxCalculation,
    InvalidTaxRates,
    NoVestedTokens,
}

} // verus!
