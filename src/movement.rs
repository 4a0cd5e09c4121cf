use vstd::prelude::*;

verus! {

/// A token account taking part in a value movement, named by its role in the operation.
#[derive(Clone, Copy, Debug, PartialEq, Eq, Structural)]
pub enum Party {
    /// The token account of whoever invoked the operation (creator, owner, seller, sender).
    Caller,
    /// The account that receives a transfer or a vesting payout.
    Recipient,
    RewardPool,
    TeamWallet,
    LiquidityWallet,
    VestingVault,
    /// The token account holding the supply reserved for burning.
    BurnReserve,
}

/// Who authorizes a debit.
#[derive(Clone, Copy, Debug, PartialEq, Eq, Structural)]
pub enum Authority {
    /// The caller's own signature.
    Caller,
    /// The program's derived signing capability, for payouts from pooled funds.
    Program,
}

/// One transfer that an operation asks the token ledger to execute.
#[derive(Clone, Copy, Debug, PartialEq, Eq, Structural)]
pub struct TokenMove {
    pub from: Party,
    pub to: Party,
    pub authority: Authority,
    pub amount: u64,
}

/// A destruction of tokens that an operation asks the token ledger to execute.
#[derive(Clone, Copy, Debug, PartialEq, Eq, Structural)]
pub struct TokenBurn {
    pub from: Party,
    pub authority: Authority,
    pub amount: u64,
}

} // verus!
