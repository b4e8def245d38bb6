use cw_ledger::error::ContractError;
use cw_ledger::ledger::AccountLedger;
use cw_ledger::oracle::{convert, ExchangeRate, RATE_SCALE};
use cw_ledger::schedule::TimeLockSchedule;
use cw_ledger::store::LedgerStore;

#[test]
fn convert_at_zero_rate_fails() {
    let r = convert(1000, Some(ExchangeRate { atomics: 0 }));
    assert_eq!(r, Err(ContractError::RateUnavailable));
    assert_eq!(convert(0, Some(ExchangeRate { atomics: 0 })), Err(ContractError::RateUnavailable));
    assert_eq!(convert(5, None), Err(ContractError::RateUnavailable));
}

#[test]
fn convert_rounds_down() {
    let rate = ExchangeRate { atomics: 1_200_000_000_000_000_000 };
    assert_eq!(convert(1000, Some(rate)), Ok(1200));
    assert_eq!(convert(1, Some(rate)), Ok(1));
    let third = ExchangeRate { atomics: 333_333_333_333_333_333 };
    assert_eq!(convert(10, Some(third)), Ok(3));
    assert_eq!(convert(0, Some(rate)), Ok(0));
}

#[test]
fn convert_wide_intermediate() {
    // the product exceeds u128 before the division brings it back in range
    let half = ExchangeRate { atomics: RATE_SCALE / 2 };
    assert_eq!(convert(u128::MAX, Some(half)), Ok(u128::MAX / 2));
    let one = ExchangeRate { atomics: RATE_SCALE };
    assert_eq!(convert(u128::MAX, Some(one)), Ok(u128::MAX));
    let over = ExchangeRate { atomics: RATE_SCALE + 1 };
    assert_eq!(convert(u128::MAX, Some(over)), Err(ContractError::ConversionOverflow));
}

#[test]
fn ledger_credit_debit() {
    let mut l = AccountLedger::new();
    let a = "alice".to_string();
    assert_eq!(l.balance_of(&a), 0);
    assert_eq!(l.credit(&a, 10), Ok(10));
    assert_eq!(l.credit(&a, 5), Ok(15));
    assert_eq!(l.debit(&a, 20), Err(ContractError::InsufficientBalance));
    assert_eq!(l.balance_of(&a), 15);
    assert_eq!(l.debit(&a, 15), Ok(0));
    assert_eq!(l.balance_of(&a), 0);
    assert_eq!(l.accounts().len(), 1);
    assert_eq!(l.credit(&a, u128::MAX), Ok(u128::MAX));
    assert_eq!(l.credit(&a, 1), Err(ContractError::ArithmeticOverflow));
    assert_eq!(l.balance_of(&a), u128::MAX);
}

#[test]
fn ledger_sequence_stays_in_range() {
    let mut l = AccountLedger::new();
    let a = "acct".to_string();
    let mut expected: u128 = 0;
    let steps: [(bool, u128); 8] = [
        (true, 5),
        (false, 7),
        (false, 5),
        (true, u128::MAX),
        (true, 1),
        (false, 1),
        (true, 1),
        (false, u128::MAX),
    ];
    for (is_credit, x) in steps {
        let r = if is_credit { l.credit(&a, x) } else { l.debit(&a, x) };
        let want = if is_credit { expected.checked_add(x) } else { expected.checked_sub(x) };
        match want {
            Some(v) => {
                assert_eq!(r, Ok(v));
                expected = v;
            }
            None => assert!(r.is_err()),
        }
        assert_eq!(l.balance_of(&a), expected);
    }
}

#[test]
fn store_remove_is_single_use() {
    let mut s: LedgerStore<u32> = LedgerStore::new();
    assert_eq!(s.insert_next(7), Some(0));
    assert_eq!(s.insert_next(8), Some(1));
    assert_eq!(s.next_id(), 2);
    assert_eq!(s.get(0), Some(&7));
    assert_eq!(s.remove(0), Some(7));
    assert_eq!(s.remove(0), None);
    assert_eq!(s.get(0), None);
    assert_eq!(s.get(1), Some(&8));
    assert_eq!(s.remove(5), None);
    assert_eq!(s.insert_next(9), Some(2));
}

#[test]
fn bonus_rounds_down() {
    let mut s = TimeLockSchedule::new(105);
    let owner = "o".to_string();
    s.lock(&owner, 100, 0, 0).ok().unwrap();
    s.lock(&owner, 19, 0, 0).ok().unwrap();
    // 100 * 105% = 105; 19 * 105% = 19.95, rounded down to 19
    assert_eq!(s.release(&vec![0], &owner, 0), Ok(105));
    assert_eq!(s.release(&vec![1], &owner, 0), Ok(19));
}

#[test]
fn bonus_overflow_fails_without_change() {
    let mut s = TimeLockSchedule::new(105);
    let owner = "o".to_string();
    s.lock(&owner, u128::MAX, 0, 0).ok().unwrap();
    assert_eq!(s.release(&vec![0], &owner, 0), Err(ContractError::ArithmeticOverflow));
    assert!(s.info(0).is_some());
}

#[test]
fn lock_time_overflow() {
    let mut s = TimeLockSchedule::new(105);
    let owner = "o".to_string();
    assert_eq!(s.lock(&owner, 1, u64::MAX, 1), Err(ContractError::ArithmeticOverflow));
    assert_eq!(s.next_id(), 0);
    assert_eq!(s.lock(&owner, 1, u64::MAX - 1, 1), Ok(1));
}
