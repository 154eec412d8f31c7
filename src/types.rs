use vstd::prelude::*;

verus! {

/// Identity of an account on the chain that hosts the ledger.
pub type AccountId = [u8; 32];

/// Address of an account on the external chain.
pub type ExternalAddress = [u8; 20];

/// A quantity of the bridged token.
pub type Balance = u128;

/// Block time, in milliseconds.
pub type Timestamp = u64;

/// One deposit on its way to the external chain.
#[derive(Clone, Copy, Debug, PartialEq, Eq)]
pub struct Transfer {
    pub id: u128,
    pub from: AccountId,
    pub to: ExternalAddress,
    pub amount: Balance,
}

/// A failure reported by the token contract.
#[derive(Clone, Copy, Debug, PartialEq, Eq, Structural)]
pub enum TokenError {
    /// The debited account does not hold enough tokens.
    InsufficientBalance,
    /// The spender has not been allowed to move that many tokens.
    InsufficientAllowance,
}

/// Why an operation of the bridge was refused.
#[derive(Clone, Copy, Debug, PartialEq, Eq, Structural)]
pub enum Error {
    /// A deposit of nothing.
    ZeroAmount,
    /// The depositor allowed the bridge to take less than the amount.
    Allowance { allowance: u128, amount: u128 },
    /// The token contract refused a debit or a payout.
    Erc20(TokenError),
    /// No transfer has this id, pending or failed.
    NotFound(u128),
    /// Only a failed transfer can be refunded.
    RefundSuccessfulTransfer,
    /// Only a failed transfer can be queued again.
    TryAgainSuccessfulTransfer,
    /// Only a pending transfer can be processed.
    ProcessUnsuccessfulTransfer,
    /// The bridge holds less than the amount to refund.
    InsufficientBridgeBalance { balance: Balance, amount: Balance },
    /// An internal limit was hit: the transfer ids are used up.
    Unexpected,
    /// Only the executor processes pending transfers.
    ExecutorPermissionDenied,
    /// Only the depositor of a failed transfer can have it refunded.
    RefundPermissionDenied,
}

/// A transfer was queued, as a new deposit or again after a failure.
#[derive(Clone, Copy, Debug, PartialEq, Eq)]
pub struct Queued {
    pub id: u128,
    pub from: AccountId,
    pub to: ExternalAddress,
    pub amount: Balance,
    pub timestamp: Timestamp,
}

/// The executor reported a transfer as done on the external chain.
#[derive(Clone, Copy, Debug, PartialEq, Eq)]
pub struct SuccessfulTransfer {
    pub id: u128,
    pub from: AccountId,
    pub to: ExternalAddress,
    pub amount: Balance,
    pub timestamp: Timestamp,
}

/// The executor reported a transfer as failed on the external chain.
#[derive(Clone, Copy, Debug, PartialEq, Eq)]
pub struct FailedTransfer {
    pub id: u128,
    pub from: AccountId,
    pub to: ExternalAddress,
    pub amount: Balance,
    pub timestamp: Timestamp,
}

/// A failed transfer was paid back to its depositor.
#[derive(Clone, Copy, Debug, PartialEq, Eq)]
pub struct Refund {
    pub id: u128,
    pub to: AccountId,
    pub amount: Balance,
    pub timestamp: Timestamp,
}

/// The notification that processing a pending transfer gives.
#[derive(Clone, Copy, Debug, PartialEq, Eq)]
pub enum Processed {
    Succeeded(SuccessfulTransfer),
    Failed(FailedTransfer),
}

} // verus!
