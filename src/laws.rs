use vstd::prelude::*;

use crate::ledger::Ledger;
use crate::types::{AccountId, Balance, ExternalAddress};

verus! {

/// In a well-formed ledger no transfer is pending and failed at once.
pub proof fn lemma_never_pending_and_failed(l: Ledger, id: u128)
    requires
        l.wf(),
    ensures
        !(l.queue.contains_key(id) && l.failed.contains_key(id)),
{
}

/// Marking a pending transfer as failed and then queueing it again gives
/// back the ledger as it was: the transfer is pending under its id with the
/// same record, and no longer failed.
pub proof fn lemma_fail_then_try_again_restores(l: Ledger, id: u128)
    requires
        l.wf(),
        l.process_refusal(l.executor, id) is None,
    ensures
        l.processed(id, false).try_again_refusal(id) is None,
        l.processed(id, false).retried(id) == l,
        l.processed(id, false).retried(id).queue[id] == l.queue[id],
        !l.processed(id, false).retried(id).failed.contains_key(id),
{
    let m = l.processed(id, false);
    assert(m.failed.contains_key(id));
    assert(!m.queue.contains_key(id));
    assert(m.retried(id).queue =~= l.queue);
    assert(!l.failed.contains_key(id));
    assert(m.retried(id).failed =~= l.failed);
}

/// An id that was handed out and is neither pending nor failed is done for
/// good: no operation brings it back.
pub proof fn lemma_done_stays_done(
    l: Ledger,
    id: u128,
    other: u128,
    success: bool,
    from: AccountId,
    to: ExternalAddress,
    amount: Balance,
)
    requires
        l.wf(),
        1 <= id <= l.counter,
        l.lookup(id) is None,
    ensures
        l.counter < u128::MAX ==> l.deposited(from, to, amount).lookup(id) is None,
        l.queue.contains_key(other) ==> l.processed(other, success).lookup(id) is None,
        l.failed.contains_key(other) ==> l.retried(other).lookup(id) is None,
        l.refunded(other).lookup(id) is None,
{
}

/// Every accepted deposit takes the next id, one above the last, and adds
/// exactly one pending transfer, with the amount and destination asked for.
pub proof fn lemma_deposit_adds_one(l: Ledger, from: AccountId, to: ExternalAddress, amount: Balance)
    requires
        l.wf(),
        l.counter < u128::MAX,
    ensures
        l.deposited(from, to, amount).counter == l.counter + 1,
        !l.queue.contains_key((l.counter + 1) as u128),
        l.deposited(from, to, amount).queue == l.queue.insert(
            (l.counter + 1) as u128,
            l.next_transfer(from, to, amount),
        ),
        l.deposited(from, to, amount).queue[(l.counter + 1) as u128].amount == amount,
        l.deposited(from, to, amount).queue[(l.counter + 1) as u128].to == to,
        l.deposited(from, to, amount).failed == l.failed,
{
    if l.queue.contains_key((l.counter + 1) as u128) {
        assert(crate::ledger::stored_well(l.queue[(l.counter + 1) as u128], (l.counter + 1) as u128, l.counter));
    }
}

} // verus!
