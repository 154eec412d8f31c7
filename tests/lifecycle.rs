use bridge::bridge::Bridge;
use bridge::types::{
    Error, FailedTransfer, Processed, Queued, Refund, SuccessfulTransfer, TokenError, Transfer,
};

const TOKEN: [u8; 32] = [9u8; 32];
const EXECUTOR: [u8; 32] = [1u8; 32];
const ALICE: [u8; 32] = [2u8; 32];
const BOB: [u8; 32] = [3u8; 32];
const DEST: [u8; 20] = [7u8; 20];

fn fresh() -> Bridge {
    Bridge::new(TOKEN, EXECUTOR)
}

fn record(id: u128, amount: u128) -> Transfer {
    Transfer { id, from: ALICE, to: DEST, amount }
}

#[test]
fn new_bridge_is_empty() {
    let b = fresh();
    assert_eq!(b.counter(), 0);
    assert_eq!(b.executor(), EXECUTOR);
    assert_eq!(b.token_address(), TOKEN);
    assert_eq!(b.get_transfer(1), Ok(None));
}

#[test]
fn deposit_refund_lifecycle() {
    let mut b = fresh();
    let q = b.transfer(ALICE, 100, DEST, 100, Ok(()), 5).unwrap();
    assert_eq!(q, Queued { id: 1, from: ALICE, to: DEST, amount: 100, timestamp: 5 });
    assert_eq!(b.counter(), 1);
    assert_eq!(b.get_transfer(1), Ok(Some((record(1, 100), true))));

    let p = b.process_transfer(EXECUTOR, 1, false, 6).unwrap();
    assert_eq!(
        p,
        Processed::Failed(FailedTransfer { id: 1, from: ALICE, to: DEST, amount: 100, timestamp: 6 })
    );
    assert_eq!(b.get_transfer(1), Ok(Some((record(1, 100), false))));

    assert_eq!(b.check_refund(ALICE, 1, 100), Ok(record(1, 100)));
    let r = b.refund(ALICE, 1, 100, Ok(()), 7).unwrap();
    assert_eq!(r, Refund { id: 1, to: ALICE, amount: 100, timestamp: 7 });
    assert_eq!(b.get_transfer(1), Ok(None));
}

#[test]
fn deposit_beyond_allowance_is_refused() {
    let mut b = fresh();
    assert_eq!(b.check_transfer(100, 50), Err(Error::Allowance { allowance: 50, amount: 100 }));
    assert_eq!(
        b.transfer(ALICE, 100, DEST, 50, Ok(()), 5),
        Err(Error::Allowance { allowance: 50, amount: 100 })
    );
    assert_eq!(b.counter(), 0);
    assert_eq!(b.get_transfer(1), Ok(None));
}

#[test]
fn refund_beyond_bridge_balance_is_refused() {
    let mut b = fresh();
    b.transfer(ALICE, 100, DEST, 100, Ok(()), 5).unwrap();
    b.process_transfer(EXECUTOR, 1, false, 6).unwrap();
    assert_eq!(
        b.refund(ALICE, 1, 40, Ok(()), 7),
        Err(Error::InsufficientBridgeBalance { balance: 40, amount: 100 })
    );
    assert_eq!(b.get_transfer(1), Ok(Some((record(1, 100), false))));
    assert!(b.refund(ALICE, 1, 100, Ok(()), 8).is_ok());
    assert_eq!(b.get_transfer(1), Ok(None));
}

#[test]
fn zero_deposit_is_refused() {
    let mut b = fresh();
    assert_eq!(b.check_transfer(0, 10), Err(Error::ZeroAmount));
    assert_eq!(b.transfer(ALICE, 0, DEST, 10, Ok(()), 5), Err(Error::ZeroAmount));
    assert_eq!(b.counter(), 0);
}

#[test]
fn failed_debit_leaves_ledger_unchanged() {
    let mut b = fresh();
    assert_eq!(b.check_transfer(10, 10), Ok(()));
    assert_eq!(
        b.transfer(ALICE, 10, DEST, 10, Err(TokenError::InsufficientBalance), 5),
        Err(Error::Erc20(TokenError::InsufficientBalance))
    );
    assert_eq!(b.counter(), 0);
    assert_eq!(b.get_transfer(1), Ok(None));
}

#[test]
fn ids_are_consecutive() {
    let mut b = fresh();
    for expected in 1..=3u128 {
        let q = b.transfer(ALICE, 10 * expected, DEST, 1000, Ok(()), 5).unwrap();
        assert_eq!(q.id, expected);
        assert_eq!(b.counter(), expected);
        assert_eq!(b.get_transfer(expected), Ok(Some((record(expected, 10 * expected), true))));
    }
}

#[test]
fn process_unknown_id_is_not_found() {
    let mut b = fresh();
    b.transfer(ALICE, 10, DEST, 10, Ok(()), 5).unwrap();
    assert_eq!(b.process_transfer(EXECUTOR, 42, true, 6), Err(Error::NotFound(42)));
    assert_eq!(b.get_transfer(1), Ok(Some((record(1, 10), true))));
}

#[test]
fn process_failed_transfer_is_refused() {
    let mut b = fresh();
    b.transfer(ALICE, 10, DEST, 10, Ok(()), 5).unwrap();
    b.process_transfer(EXECUTOR, 1, false, 6).unwrap();
    assert_eq!(b.process_transfer(EXECUTOR, 1, true, 7), Err(Error::ProcessUnsuccessfulTransfer));
    assert_eq!(b.get_transfer(1), Ok(Some((record(1, 10), false))));
}

#[test]
fn only_executor_processes() {
    let mut b = fresh();
    b.transfer(ALICE, 10, DEST, 10, Ok(()), 5).unwrap();
    assert_eq!(b.process_transfer(ALICE, 1, true, 6), Err(Error::ExecutorPermissionDenied));
    assert_eq!(b.get_transfer(1), Ok(Some((record(1, 10), true))));
    let p = b.process_transfer(EXECUTOR, 1, true, 6).unwrap();
    assert_eq!(
        p,
        Processed::Succeeded(SuccessfulTransfer {
            id: 1,
            from: ALICE,
            to: DEST,
            amount: 10,
            timestamp: 6
        })
    );
    assert_eq!(b.get_transfer(1), Ok(None));
}

#[test]
fn refund_of_pending_transfer_is_refused() {
    let mut b = fresh();
    b.transfer(ALICE, 10, DEST, 10, Ok(()), 5).unwrap();
    assert_eq!(b.refund(ALICE, 1, 100, Ok(()), 6), Err(Error::RefundSuccessfulTransfer));
    assert_eq!(b.get_transfer(1), Ok(Some((record(1, 10), true))));
}

#[test]
fn refund_by_other_account_is_refused() {
    let mut b = fresh();
    b.transfer(ALICE, 10, DEST, 10, Ok(()), 5).unwrap();
    b.process_transfer(EXECUTOR, 1, false, 6).unwrap();
    assert_eq!(b.check_refund(BOB, 1, 100), Err(Error::RefundPermissionDenied));
    assert_eq!(b.refund(BOB, 1, 100, Ok(()), 7), Err(Error::RefundPermissionDenied));
    assert_eq!(b.get_transfer(1), Ok(Some((record(1, 10), false))));
}

#[test]
fn refund_of_unknown_id_is_not_found() {
    let mut b = fresh();
    assert_eq!(b.refund(ALICE, 3, 100, Ok(()), 7), Err(Error::NotFound(3)));
    assert_eq!(b.try_again(3, 7), Err(Error::NotFound(3)));
}

#[test]
fn failed_payout_keeps_transfer() {
    let mut b = fresh();
    b.transfer(ALICE, 10, DEST, 10, Ok(()), 5).unwrap();
    b.process_transfer(EXECUTOR, 1, false, 6).unwrap();
    assert_eq!(
        b.refund(ALICE, 1, 100, Err(TokenError::InsufficientBalance), 7),
        Err(Error::Erc20(TokenError::InsufficientBalance))
    );
    assert_eq!(b.get_transfer(1), Ok(Some((record(1, 10), false))));
}

#[test]
fn fail_then_try_again_restores_record() {
    let mut b = fresh();
    b.transfer(ALICE, 10, DEST, 10, Ok(()), 5).unwrap();
    b.process_transfer(EXECUTOR, 1, false, 6).unwrap();
    let q = b.try_again(1, 7).unwrap();
    assert_eq!(q, Queued { id: 1, from: ALICE, to: DEST, amount: 10, timestamp: 7 });
    assert_eq!(b.get_transfer(1), Ok(Some((record(1, 10), true))));
    assert_eq!(b.counter(), 1);
}

#[test]
fn try_again_on_pending_is_refused() {
    let mut b = fresh();
    b.transfer(ALICE, 10, DEST, 10, Ok(()), 5).unwrap();
    assert_eq!(b.try_again(1, 6), Err(Error::TryAgainSuccessfulTransfer));
}

#[test]
fn done_transfer_does_not_come_back() {
    let mut b = fresh();
    b.transfer(ALICE, 10, DEST, 10, Ok(()), 5).unwrap();
    b.process_transfer(EXECUTOR, 1, true, 6).unwrap();
    assert_eq!(b.try_again(1, 7), Err(Error::NotFound(1)));
    assert_eq!(b.refund(ALICE, 1, 100, Ok(()), 7), Err(Error::NotFound(1)));
    assert_eq!(b.process_transfer(EXECUTOR, 1, true, 7), Err(Error::NotFound(1)));
    let q = b.transfer(ALICE, 10, DEST, 10, Ok(()), 8).unwrap();
    assert_eq!(q.id, 2);
    assert_eq!(b.get_transfer(1), Ok(None));
}

#[test]
fn never_pending_and_failed_over_a_sequence() {
    let mut b = fresh();
    for _ in 0..4 {
        b.transfer(ALICE, 5, DEST, 5, Ok(()), 1).unwrap();
    }
    b.process_transfer(EXECUTOR, 1, false, 2).unwrap();
    b.process_transfer(EXECUTOR, 2, true, 2).unwrap();
    b.process_transfer(EXECUTOR, 3, false, 2).unwrap();
    b.try_again(3, 3).unwrap();
    b.refund(ALICE, 1, 100, Ok(()), 4).unwrap();
    assert_eq!(b.get_transfer(1), Ok(None));
    assert_eq!(b.get_transfer(2), Ok(None));
    assert_eq!(b.get_transfer(3), Ok(Some((record(3, 5), true))));
    assert_eq!(b.get_transfer(4), Ok(Some((record(4, 5), true))));
}
