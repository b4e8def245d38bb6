use cw_ledger::error::ContractError;
use cw_ledger::ledger::{Account, AccountLedger};
use cw_ledger::pool::{Contribution, DonationPool};
use cw_ledger::schedule::{Lockdrop, TimeLockSchedule};
use cw_ledger::store::LedgerStore;

fn account(address: &str, balance: u128) -> Account {
    Account { address: address.to_string(), balance }
}

fn gift(donator: &str, amount: u128) -> Contribution {
    Contribution { donator: donator.to_string(), amount }
}

#[test]
fn ledger_round_trip() {
    let accounts = vec![account("alice", 5), account("bob", 0), account("carol", 9)];
    let l = AccountLedger::from_accounts(&accounts).unwrap();
    assert_eq!(l.balance_of(&"alice".to_string()), 5);
    assert_eq!(l.balance_of(&"bob".to_string()), 0);
    assert_eq!(l.balance_of(&"carol".to_string()), 9);
    assert_eq!(l.accounts().len(), 3);
}

#[test]
fn ledger_refuses_duplicate_address() {
    let accounts = vec![account("alice", 5), account("bob", 1), account("alice", 2)];
    assert!(AccountLedger::from_accounts(&accounts).is_none());
}

#[test]
fn schedule_round_trip_keeps_gaps() {
    let mut s = TimeLockSchedule::new(105);
    let owner = "o".to_string();
    s.lock(&owner, 100, 0, 0).ok().unwrap();
    s.lock(&owner, 200, 0, 0).ok().unwrap();
    assert_eq!(s.release(&vec![0], &owner, 0), Ok(105));
    let slots: Vec<Option<Lockdrop>> = s
        .deposits()
        .slots()
        .iter()
        .map(|d| {
            d.as_ref().map(|d| Lockdrop {
                id: d.id,
                owner: d.owner.clone(),
                amount: d.amount,
                unlock_time: d.unlock_time,
            })
        })
        .collect();
    let store = LedgerStore::from_slots(slots).unwrap();
    let mut back = TimeLockSchedule::from_parts(store, s.bonus_percent()).unwrap();
    assert_eq!(back.next_id(), 2);
    assert!(back.info(0).is_none());
    assert_eq!(back.release(&vec![0, 1], &owner, 0), Ok(210));
}

#[test]
fn schedule_refuses_misplaced_entry() {
    let misplaced = Lockdrop { id: 3, owner: "o".to_string(), amount: 1, unlock_time: 0 };
    let store = LedgerStore::from_slots(vec![None, Some(misplaced)]).unwrap();
    assert!(TimeLockSchedule::from_parts(store, 105).is_none());
}

#[test]
fn pool_round_trip() {
    let log = LedgerStore::from_slots(vec![Some(gift("a", 3)), Some(gift("b", 4)), Some(gift("c", 5))])
        .unwrap();
    let mut p = DonationPool::from_parts(log, 1, "admin".to_string()).unwrap();
    assert_eq!(p.pending(), 9);
    assert_eq!(p.swept(), 1);
    assert!(p.info(0).unwrap().withdrawn);
    assert!(!p.info(2).unwrap().withdrawn);
    assert_eq!(p.sweep(&"admin".to_string()), Ok(9));
    assert_eq!(p.swept(), 3);
}

#[test]
fn pool_refuses_gap_or_bad_watermark() {
    let log = LedgerStore::from_slots(vec![Some(gift("a", 3)), None]).unwrap();
    assert!(DonationPool::from_parts(log, 0, "admin".to_string()).is_none());
    let log = LedgerStore::from_slots(vec![Some(gift("a", 3))]).unwrap();
    assert!(DonationPool::from_parts(log, 2, "admin".to_string()).is_none());
    let log = LedgerStore::from_slots(vec![Some(gift("a", u128::MAX)), Some(gift("b", 1))]).unwrap();
    assert!(DonationPool::from_parts(log, 0, "admin".to_string()).is_none());
}

#[test]
fn pool_pending_overflow() {
    let mut p = DonationPool::new("admin".to_string());
    let d = "d".to_string();
    assert_eq!(p.contribute(&d, u128::MAX), Ok(1));
    assert_eq!(p.contribute(&d, 1), Err(ContractError::ArithmeticOverflow));
    assert_eq!(p.next_id(), 1);
    assert_eq!(p.contribute(&d, 0), Ok(2));
    assert_eq!(p.sweep(&d), Err(ContractError::Unauthorized));
    assert_eq!(p.sweep(&"admin".to_string()), Ok(u128::MAX));
    assert_eq!(p.contribute(&d, 1), Ok(3));
}
