use std::collections::HashMap;

use vstd::prelude::*;

use crate::account::same_account;
use crate::ledger::{deposit_refusal, stored_well, processed_of, queued_of, refund_of, Ledger};
use crate::types::{
    AccountId, Balance, Error, ExternalAddress, FailedTransfer, Processed, Queued, Refund,
    SuccessfulTransfer, Timestamp, TokenError, Transfer,
};

verus! {

broadcast use vstd::std_specs::hash::group_hash_axioms;

/// The bridge: pending and failed transfers, the id counter and the fixed
/// configuration.
pub struct Bridge {
    queue: HashMap<u128, Transfer>,
    failed_transfers: HashMap<u128, Transfer>,
    token_address: AccountId,
    executor: AccountId,
    counter: u128,
}

impl View for Bridge {
    type V = Ledger;

    closed spec fn view(&self) -> Ledger {
        Ledger {
            queue: self.queue@,
            failed: self.failed_transfers@,
            counter: self.counter,
            executor: self.executor,
            token: self.token_address,
        }
    }
}

impl Bridge {
    /// The bridge's ledger is well formed.
    pub open spec fn wf(&self) -> bool {
        self@.wf()
    }

    /// A bridge for the token contract at `token`, whose deployer `executor`
    /// alone may process pending transfers.
    pub fn new(token: AccountId, executor: AccountId) -> (r: Self)
        ensures
            r.wf(),
            r@.queue == Map::<u128, Transfer>::empty(),
            r@.failed == Map::<u128, Transfer>::empty(),
            r@.counter == 0,
            r@.executor == executor,
            r@.token == token,
    {
        Bridge {
            queue: HashMap::new(),
            failed_transfers: HashMap::new(),
            token_address: token,
            executor,
            counter: 0,
        }
    }

    /// The token contract whose tokens the bridge holds.
    pub fn token_address(&self) -> (r: AccountId)
        ensures
            r == self@.token,
    {
        self.token_address
    }

    /// The account that processes pending transfers.
    pub fn executor(&self) -> (r: AccountId)
        ensures
            r == self@.executor,
    {
        self.executor
    }

    /// The last transfer id handed out.
    pub fn counter(&self) -> (r: u128)
        ensures
            r == self@.counter,
    {
        self.counter
    }

    fn find(&self, transfer_id: u128) -> (r: Option<(Transfer, bool)>)
        ensures
            r == self@.lookup(transfer_id),
    {
        match self.queue.get(&transfer_id) {
            Some(t) => Some((*t, true)),
            None => match self.failed_transfers.get(&transfer_id) {
                Some(t) => Some((*t, false)),
                None => None,
            },
        }
    }

    /// The transfer under `transfer_id`, with `true` when it is pending and
    /// `false` when it failed; `None` when it was never created or is done.
    pub fn get_transfer(&self, transfer_id: u128) -> (r: Result<Option<(Transfer, bool)>, Error>)
        ensures
            r == Ok::<Option<(Transfer, bool)>, Error>(self@.lookup(transfer_id)),
    {
        Ok(self.find(transfer_id))
    }

    /// Decides whether a deposit of `amount` may go ahead, given the
    /// `allowance` that the depositor granted the bridge on the token
    /// contract. Only when it may is the token contract asked to move the
    /// amount from the depositor to the bridge.
    pub fn check_transfer(&self, amount: Balance, allowance: Balance) -> (r: Result<(), Error>)
        ensures
            r == match deposit_refusal(self@.counter, amount, allowance) {
                Some(e) => Err::<(), Error>(e),
                None => Ok(()),
            },
    {
        if amount == 0 {
            return Err(Error::ZeroAmount);
        }
        if allowance < amount {
            return Err(Error::Allowance { allowance, amount });
        }
        if self.counter == u128::MAX {
            return Err(Error::Unexpected);
        }
        Ok(())
    }

    /// Records a deposit of `amount` by `caller` towards
    /// `external_destination_address`. `allowance` is what the token contract
    /// reported as the caller's allowance to the bridge, and `debit` how the
    /// token contract answered the request to move the amount to the bridge.
    /// On success the new transfer is pending under the next id, and the
    /// notification to emit is returned.
    pub fn transfer(
        &mut self,
        caller: AccountId,
        amount: Balance,
        external_destination_address: ExternalAddress,
        allowance: Balance,
        debit: Result<(), TokenError>,
        timestamp: Timestamp,
    ) -> (r: Result<Queued, Error>)
        requires
            old(self).wf(),
        ensures
            final(self).wf(),
            match deposit_refusal(old(self)@.counter, amount, allowance) {
                Some(e) => r == Err::<Queued, Error>(e) && final(self)@ == old(self)@,
                None => match debit {
                    Err(e) => r == Err::<Queued, Error>(Error::Erc20(e)) && final(self)@ == old(
                        self,
                    )@,
                    Ok(_) => {
                        let t = old(self)@.next_transfer(caller, external_destination_address, amount);
                        &&& r == Ok::<Queued, Error>(queued_of(t, timestamp))
                        &&& final(self)@ == old(self)@.deposited(caller, external_destination_address, amount)
                    },
                },
            },
    {
        match self.check_transfer(amount, allowance) {
            Err(e) => return Err(e),
            Ok(()) => {},
        }
        match debit {
            Err(e) => return Err(Error::Erc20(e)),
            Ok(()) => {},
        }
        self.counter = self.counter + 1;
        let id = self.counter;
        let t = Transfer { id, from: caller, to: external_destination_address, amount };
        self.queue.insert(id, t);
        proof {
            let o = old(self)@;
            let l = self@;
            assert(l.queue == o.queue.insert(id, t));
            assert forall|k: u128| #[trigger] l.queue.contains_key(k) implies !l.failed.contains_key(
                k,
            ) && stored_well(l.queue[k], k, l.counter) by {
                if k != id {
                    assert(o.queue.contains_key(k));
                } else if o.failed.contains_key(k) {
                    assert(stored_well(o.failed[k], k, o.counter));
                }
            }
            assert forall|k: u128| #[trigger] l.failed.contains_key(k) implies stored_well(
                l.failed[k],
                k,
                l.counter,
            ) by {
                assert(stored_well(o.failed[k], k, o.counter));
            }
            assert(l == o.deposited(caller, external_destination_address, amount));
        }
        Ok(Queued { id, from: caller, to: external_destination_address, amount, timestamp })
    }

    /// The executor reports how the pending transfer `transfer_id` went on
    /// the external chain. A successful transfer is done and leaves the
    /// ledger; a failed one waits for a refund or another try. Returns the
    /// notification to emit.
    pub fn process_transfer(
        &mut self,
        caller: AccountId,
        transfer_id: u128,
        mark_as_successful: bool,
        timestamp: Timestamp,
    ) -> (r: Result<Processed, Error>)
        requires
            old(self).wf(),
        ensures
            final(self).wf(),
            match old(self)@.process_refusal(caller, transfer_id) {
                Some(e) => r == Err::<Processed, Error>(e) && final(self)@ == old(self)@,
                None => {
                    let t = old(self)@.queue[transfer_id];
                    &&& r == Ok::<Processed, Error>(processed_of(t, mark_as_successful, timestamp))
                    &&& final(self)@ == old(self)@.processed(transfer_id, mark_as_successful)
                },
            },
    {
        if !same_account(&self.executor, &caller) {
            return Err(Error::ExecutorPermissionDenied);
        }
        let (t, pending) = match self.find(transfer_id) {
            None => return Err(Error::NotFound(transfer_id)),
            Some(found) => found,
        };
        if !pending {
            return Err(Error::ProcessUnsuccessfulTransfer);
        }
        self.queue.remove(&transfer_id);
        if mark_as_successful {
            proof {
                let o = old(self)@;
                let l = self@;
                assert forall|k: u128| #[trigger] l.queue.contains_key(k) implies stored_well(
                    l.queue[k],
                    k,
                    l.counter,
                ) by {
                    assert(o.queue.contains_key(k));
                }
                assert(l == o.processed(transfer_id, true));
            }
            Ok(
                Processed::Succeeded(
                    SuccessfulTransfer {
                        id: t.id,
                        from: t.from,
                        to: t.to,
                        amount: t.amount,
                        timestamp,
                    },
                ),
            )
        } else {
            self.failed_transfers.insert(transfer_id, t);
            proof {
                let o = old(self)@;
                let l = self@;
                assert forall|k: u128| #[trigger] l.queue.contains_key(k) implies !l.failed.contains_key(
                    k,
                ) && stored_well(l.queue[k], k, l.counter) by {
                    assert(o.queue.contains_key(k));
                }
                assert forall|k: u128| #[trigger] l.failed.contains_key(k) implies stored_well(
                    l.failed[k],
                    k,
                    l.counter,
                ) by {
                    if k != transfer_id {
                        assert(o.failed.contains_key(k));
                    } else {
                        assert(o.queue.contains_key(k));
                    }
                }
                assert(l == o.processed(transfer_id, false));
            }
            Ok(
                Processed::Failed(
                    FailedTransfer { id: t.id, from: t.from, to: t.to, amount: t.amount, timestamp },
                ),
            )
        }
    }

    /// Queues the failed transfer `transfer_id` again, under the same id.
    /// Anyone may ask for it. Returns the notification to emit.
    pub fn try_again(&mut self, transfer_id: u128, timestamp: Timestamp) -> (r: Result<Queued, Error>)
        requires
            old(self).wf(),
        ensures
            final(self).wf(),
            match old(self)@.try_again_refusal(transfer_id) {
                Some(e) => r == Err::<Queued, Error>(e) && final(self)@ == old(self)@,
                None => {
                    let t = old(self)@.failed[transfer_id];
                    &&& r == Ok::<Queued, Error>(queued_of(t, timestamp))
                    &&& final(self)@ == old(self)@.retried(transfer_id)
                },
            },
    {
        let (t, pending) = match self.find(transfer_id) {
            None => return Err(Error::NotFound(transfer_id)),
            Some(found) => found,
        };
        if pending {
            return Err(Error::TryAgainSuccessfulTransfer);
        }
        self.queue.insert(transfer_id, t);
        self.failed_transfers.remove(&transfer_id);
        proof {
            let o = old(self)@;
            let l = self@;
            assert forall|k: u128| #[trigger] l.queue.contains_key(k) implies !l.failed.contains_key(
                k,
            ) && stored_well(l.queue[k], k, l.counter) by {
                if k != transfer_id {
                    assert(o.queue.contains_key(k));
                } else {
                    assert(o.failed.contains_key(k));
                }
            }
            assert forall|k: u128| #[trigger] l.failed.contains_key(k) implies stored_well(
                l.failed[k],
                k,
                l.counter,
            ) by {
                assert(o.failed.contains_key(k));
            }
            assert(l == o.retried(transfer_id));
        }
        Ok(Queued { id: t.id, from: t.from, to: t.to, amount: t.amount, timestamp })
    }

    /// Decides whether `caller` may have the transfer `transfer_id` refunded
    /// while the bridge holds `balance` tokens. When it may, returns the
    /// failed transfer: the token contract is then asked to pay its amount
    /// back to its depositor.
    pub fn check_refund(&self, caller: AccountId, transfer_id: u128, balance: Balance) -> (r:
        Result<Transfer, Error>)
        ensures
            r == match self@.refund_refusal(caller, transfer_id, balance) {
                Some(e) => Err::<Transfer, Error>(e),
                None => Ok(self@.failed[transfer_id]),
            },
    {
        let (t, pending) = match self.find(transfer_id) {
            None => return Err(Error::NotFound(transfer_id)),
            Some(found) => found,
        };
        if pending {
            return Err(Error::RefundSuccessfulTransfer);
        }
        if !same_account(&t.from, &caller) {
            return Err(Error::RefundPermissionDenied);
        }
        if balance < t.amount {
            return Err(Error::InsufficientBridgeBalance { balance, amount: t.amount });
        }
        Ok(t)
    }

    /// Refunds the failed transfer `transfer_id` to `caller`, its depositor.
    /// `balance` is what the token contract reported as the bridge's own
    /// balance, and `payout` how it answered the request to pay the amount
    /// back. Only a payout that went through removes the transfer; returns
    /// the notification to emit.
    pub fn refund(
        &mut self,
        caller: AccountId,
        transfer_id: u128,
        balance: Balance,
        payout: Result<(), TokenError>,
        timestamp: Timestamp,
    ) -> (r: Result<Refund, Error>)
        requires
            old(self).wf(),
        ensures
            final(self).wf(),
            match old(self)@.refund_refusal(caller, transfer_id, balance) {
                Some(e) => r == Err::<Refund, Error>(e) && final(self)@ == old(self)@,
                None => match payout {
                    Err(e) => r == Err::<Refund, Error>(Error::Erc20(e)) && final(self)@ == old(
                        self,
                    )@,
                    Ok(_) => {
                        let t = old(self)@.failed[transfer_id];
                        &&& r == Ok::<Refund, Error>(refund_of(t, timestamp))
                        &&& final(self)@ == old(self)@.refunded(transfer_id)
                    },
                },
            },
    {
        let t = match self.check_refund(caller, transfer_id, balance) {
            Err(e) => return Err(e),
            Ok(t) => t,
        };
        match payout {
            Err(e) => return Err(Error::Erc20(e)),
            Ok(()) => {},
        }
        self.failed_transfers.remove(&transfer_id);
        proof {
            let o = old(self)@;
            let l = self@;
            assert forall|k: u128| #[trigger] l.queue.contains_key(k) implies !l.failed.contains_key(
                k,
            ) by {
                assert(o.queue.contains_key(k));
            }
            assert forall|k: u128| #[trigger] l.failed.contains_key(k) implies stored_well(
                l.failed[k],
                k,
                l.counter,
            ) by {
                assert(o.failed.contains_key(k));
            }
            assert(l == o.refunded(transfer_id));
        }
        Ok(Refund { id: t.id, to: caller, amount: t.amount, timestamp })
    }
}

} // verus!
