use cw_ledger::donations::{execute, instantiate, query};
use cw_ledger::error::{ContractError, ValidationKind};
use cw_ledger::funds::{Coin, MessageInfo};
use cw_ledger::msg::{Event, ExecuteMsg, InstantiateMsg, QueryMsg, QueryResponse, Response};
use cw_ledger::pool::{Donation, DonationPool, MAX_PAGE};

fn info(sender: &str, funds: &[(u128, &str)]) -> MessageInfo {
    MessageInfo {
        sender: sender.to_string(),
        funds: funds
            .iter()
            .map(|(amount, denom)| Coin { denom: denom.to_string(), amount: *amount })
            .collect(),
    }
}

fn setup() -> DonationPool {
    instantiate(&info("admin", &[]), InstantiateMsg { issuer: None })
}

fn next_id(p: &DonationPool) -> u64 {
    match query(p, &QueryMsg::GetNextId) {
        Ok(QueryResponse::NextDonationId(n)) => n.next_id,
        _ => panic!("next id query failed"),
    }
}

fn donation(p: &DonationPool, id: u64) -> Donation {
    match query(p, &QueryMsg::GetEntryInfo { id }) {
        Ok(QueryResponse::Donation(d)) => d,
        _ => panic!("donation query failed"),
    }
}

fn all(p: &DonationPool, start_after: Option<u64>, limit: Option<u32>) -> Vec<Donation> {
    match query(p, &QueryMsg::GetAllEntries { start_after, limit }) {
        Ok(QueryResponse::AllDonations(a)) => a.donations,
        _ => panic!("listing failed"),
    }
}

fn swept(r: &Response) -> u128 {
    match &r.event {
        Event::Withdrawn { total_amount, .. } => *total_amount,
        _ => panic!("unexpected event"),
    }
}

#[test]
fn contract_deposit_withdraw_success() {
    let mut p = setup();
    assert_eq!(next_id(&p), 0);

    execute(&mut p, &info("alice", &[(10, "uusd")]), ExecuteMsg::Deposit).ok().unwrap();
    let d = donation(&p, 0);
    assert_eq!(d.id, 0);
    assert_eq!(d.donator, "alice");
    assert_eq!(d.amount, 10);
    assert_eq!(d.withdrawn, false);
    assert_eq!(next_id(&p), 1);

    execute(&mut p, &info("alice", &[(20, "uusd")]), ExecuteMsg::Deposit).ok().unwrap();
    let d = donation(&p, 1);
    assert_eq!(d.id, 1);
    assert_eq!(d.donator, "alice");
    assert_eq!(d.amount, 20);
    assert_eq!(d.withdrawn, false);

    assert_eq!(all(&p, None, None).len(), 2);

    let r = execute(&mut p, &info("admin", &[]), ExecuteMsg::Sweep).ok().unwrap();
    assert_eq!(swept(&r), 30);
    let t = r.transfer.unwrap();
    assert_eq!((t.to.as_str(), t.denom.as_str(), t.amount), ("admin", "uusd", 30));
    assert!(donation(&p, 0).withdrawn);
    assert!(donation(&p, 1).withdrawn);
}

#[test]
fn donation_deposit_failure() {
    let mut p = setup();
    let r = execute(&mut p, &info("bob", &[(10, "umyr")]), ExecuteMsg::Deposit);
    assert_eq!(r.err(), Some(ContractError::ValidationError(ValidationKind::Funds)));
    assert_eq!(next_id(&p), 0);
}

#[test]
fn withdraw_fail() {
    let mut p = setup();
    let r = execute(&mut p, &info("bob", &[]), ExecuteMsg::Sweep);
    assert_eq!(r.err(), Some(ContractError::Unauthorized));
}

#[test]
fn sweep_twice_pays_once() {
    let mut p = setup();
    execute(&mut p, &info("alice", &[(10, "uusd")]), ExecuteMsg::Deposit).ok().unwrap();
    let r = execute(&mut p, &info("admin", &[]), ExecuteMsg::Sweep).ok().unwrap();
    assert_eq!(swept(&r), 10);
    let again = execute(&mut p, &info("admin", &[]), ExecuteMsg::Sweep);
    assert_eq!(again.err(), Some(ContractError::NothingToWithdraw));
    // a new donation is swept on its own
    execute(&mut p, &info("bob", &[(5, "uusd")]), ExecuteMsg::Deposit).ok().unwrap();
    assert!(donation(&p, 0).withdrawn);
    assert!(!donation(&p, 1).withdrawn);
    let r = execute(&mut p, &info("admin", &[]), ExecuteMsg::Sweep).ok().unwrap();
    assert_eq!(swept(&r), 5);
}

#[test]
fn donation_exploit() {
    // ten thousand zero donations neither block the sweep nor change what it pays
    let mut p = setup();
    execute(&mut p, &info("alice", &[(25, "uusd")]), ExecuteMsg::Deposit).ok().unwrap();
    for _ in 0..10_000 {
        execute(&mut p, &info("hacker", &[(0, "uusd")]), ExecuteMsg::Deposit).ok().unwrap();
    }
    execute(&mut p, &info("bob", &[(17, "uusd")]), ExecuteMsg::Deposit).ok().unwrap();
    assert_eq!(next_id(&p), 10_002);
    let r = execute(&mut p, &info("admin", &[]), ExecuteMsg::Sweep).ok().unwrap();
    assert_eq!(swept(&r), 42);
    assert_eq!(r.transfer.unwrap().amount, 42);
    assert!(donation(&p, 10_001).withdrawn);
}

#[test]
fn zero_donations_only_leave_nothing_to_withdraw() {
    let mut p = setup();
    for _ in 0..5 {
        execute(&mut p, &info("hacker", &[(0, "uusd")]), ExecuteMsg::Deposit).ok().unwrap();
    }
    let r = execute(&mut p, &info("admin", &[]), ExecuteMsg::Sweep);
    assert_eq!(r.err(), Some(ContractError::NothingToWithdraw));
}

#[test]
fn listing_is_paged() {
    let mut p = setup();
    for i in 0..40u128 {
        execute(&mut p, &info("alice", &[(i, "uusd")]), ExecuteMsg::Deposit).ok().unwrap();
    }
    let first = all(&p, None, None);
    assert_eq!(first.len(), 10);
    assert_eq!(first[9].id, 9);
    let big = all(&p, Some(4), Some(1000));
    assert_eq!(big.len(), MAX_PAGE as usize);
    assert_eq!(big[0].id, 5);
    assert_eq!(big[0].amount, 5);
    let tail = all(&p, Some(35), Some(20));
    assert_eq!(tail.len(), 4);
    assert_eq!(tail[3].id, 39);
    assert!(all(&p, Some(39), None).is_empty());
    assert!(all(&p, Some(u64::MAX), None).is_empty());
    assert!(matches!(query(&p, &QueryMsg::GetEntryInfo { id: 40 }), Err(ContractError::NotFound)));
}

#[test]
fn donations_refuse_other_messages() {
    let mut p = setup();
    let r = execute(&mut p, &info("admin", &[]), ExecuteMsg::Withdraw { amount: 1 });
    assert_eq!(r.err(), Some(ContractError::UnknownMessage));
    assert!(matches!(
        query(&p, &QueryMsg::GetBalance { address: "admin".to_string() }),
        Err(ContractError::UnknownMessage)
    ));
}
