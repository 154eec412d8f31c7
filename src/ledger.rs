use vstd::prelude::*;

use crate::types::{
    AccountId, Balance, Error, ExternalAddress, FailedTransfer, Processed, Queued, Refund,
    SuccessfulTransfer, Timestamp, Transfer,
};

verus! {

/// The state of a bridge as mathematical values.
pub ghost struct Ledger {
    /// Transfers waiting for the executor, by id.
    pub queue: Map<u128, Transfer>,
    /// Transfers that the executor reported as failed, by id.
    pub failed: Map<u128, Transfer>,
    /// The last id handed out; zero before the first deposit.
    pub counter: u128,
    /// The only account that may process pending transfers.
    pub executor: AccountId,
    /// The token contract whose tokens the bridge holds.
    pub token: AccountId,
}

/// A transfer stored under `id` carries that id, which was handed out
/// already, and moves a positive amount.
pub open spec fn stored_well(t: Transfer, id: u128, counter: u128) -> bool {
    &&& t.id == id
    &&& 1 <= id <= counter
    &&& t.amount > 0
}

/// The refusal that a deposit meets before the token contract is asked to
/// debit the depositor, if any.
pub open spec fn deposit_refusal(counter: u128, amount: Balance, allowance: Balance) -> Option<
    Error,
> {
    if amount == 0 {
        Some(Error::ZeroAmount)
    } else if allowance < amount {
        Some(Error::Allowance { allowance, amount })
    } else if counter == u128::MAX {
        Some(Error::Unexpected)
    } else {
        None
    }
}

/// The notification that queueing `t` emits.
pub open spec fn queued_of(t: Transfer, timestamp: Timestamp) -> Queued {
    Queued { id: t.id, from: t.from, to: t.to, amount: t.amount, timestamp }
}

/// The notification that processing `t` emits.
pub open spec fn processed_of(t: Transfer, success: bool, timestamp: Timestamp) -> Processed {
    if success {
        Processed::Succeeded(
            SuccessfulTransfer { id: t.id, from: t.from, to: t.to, amount: t.amount, timestamp },
        )
    } else {
        Processed::Failed(
            FailedTransfer { id: t.id, from: t.from, to: t.to, amount: t.amount, timestamp },
        )
    }
}

/// The notification that refunding `t` emits: the amount goes back to the
/// depositor.
pub open spec fn refund_of(t: Transfer, timestamp: Timestamp) -> Refund {
    Refund { id: t.id, to: t.from, amount: t.amount, timestamp }
}

impl Ledger {
    /// No id is both pending and failed, and every stored transfer is
    /// stored well.
    pub open spec fn wf(self) -> bool {
        &&& forall|id: u128| #[trigger]
            self.queue.contains_key(id) ==> !self.failed.contains_key(id)
        &&& forall|id: u128| #[trigger]
            self.queue.contains_key(id) ==> stored_well(self.queue[id], id, self.counter)
        &&& forall|id: u128| #[trigger]
            self.failed.contains_key(id) ==> stored_well(self.failed[id], id, self.counter)
    }

    /// The transfer under `id`, and whether it is pending (`true`) or
    /// failed (`false`).
    pub open spec fn lookup(self, id: u128) -> Option<(Transfer, bool)> {
        if self.queue.contains_key(id) {
            Some((self.queue[id], true))
        } else if self.failed.contains_key(id) {
            Some((self.failed[id], false))
        } else {
            None
        }
    }

    /// The transfer that the next deposit creates.
    pub open spec fn next_transfer(self, from: AccountId, to: ExternalAddress, amount: Balance) -> Transfer {
        Transfer { id: (self.counter + 1) as u128, from, to, amount }
    }

    /// The ledger after a deposit was accepted.
    pub open spec fn deposited(self, from: AccountId, to: ExternalAddress, amount: Balance) -> Ledger {
        let t = self.next_transfer(from, to, amount);
        Ledger { queue: self.queue.insert(t.id, t), counter: t.id, ..self }
    }

    /// The ledger after the pending transfer `id` was processed.
    pub open spec fn processed(self, id: u128, success: bool) -> Ledger {
        if success {
            Ledger { queue: self.queue.remove(id), ..self }
        } else {
            Ledger {
                queue: self.queue.remove(id),
                failed: self.failed.insert(id, self.queue[id]),
                ..self
            }
        }
    }

    /// The ledger after the failed transfer `id` was queued again.
    pub open spec fn retried(self, id: u128) -> Ledger {
        Ledger { queue: self.queue.insert(id, self.failed[id]), failed: self.failed.remove(id), ..self }
    }

    /// The ledger after the failed transfer `id` was refunded.
    pub open spec fn refunded(self, id: u128) -> Ledger {
        Ledger { failed: self.failed.remove(id), ..self }
    }

    /// The refusal that `caller` meets when processing `id`, if any.
    pub open spec fn process_refusal(self, caller: AccountId, id: u128) -> Option<Error> {
        if caller != self.executor {
            Some(Error::ExecutorPermissionDenied)
        } else {
            match self.lookup(id) {
                None => Some(Error::NotFound(id)),
                Some((_, false)) => Some(Error::ProcessUnsuccessfulTransfer),
                Some((_, true)) => None,
            }
        }
    }

    /// The refusal that queueing `id` again meets, if any.
    pub open spec fn try_again_refusal(self, id: u128) -> Option<Error> {
        match self.lookup(id) {
            None => Some(Error::NotFound(id)),
            Some((_, true)) => Some(Error::TryAgainSuccessfulTransfer),
            Some((_, false)) => None,
        }
    }

    /// The refusal that `caller` meets when asking for a refund of `id`
    /// while the bridge holds `balance`, before the token contract is asked
    /// to pay, if any.
    pub open spec fn refund_refusal(self, caller: AccountId, id: u128, balance: Balance) -> Option<
        Error,
    > {
        match self.lookup(id) {
            None => Some(Error::NotFound(id)),
            Some((_, true)) => Some(Error::RefundSuccessfulTransfer),
            Some((t, false)) => if t.from != caller {
                Some(Error::RefundPermissionDenied)
            } else if balance < t.amount {
                Some(Error::InsufficientBridgeBalance { balance, amount: t.amount })
            } else {
                None
            },
        }
    }
}

} // verus!
