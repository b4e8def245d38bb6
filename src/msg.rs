use vstd::prelude::*;

use crate::funds::Transfer;
use crate::oracle::ExchangeRate;
use crate::pool::Donation;
use crate::schedule::Lockdrop;

verus! {

/// The one-time configuration of a contract.
pub struct InstantiateMsg {
    /// The contract of the external asset that the vault accepts through `Receive`,
    /// which is also the oracle asked for its exchange rate; `None` where the vault
    /// takes the native asset only.
    pub issuer: Option<String>,
}

/// What the embedded sub-message of an incoming external transfer asks for.
pub enum ReceiveMsg {
    Deposit,
}

/// The notification an external asset sends when it transfers to this contract.
/// Its `sender` and `msg` are reported by the caller and trusted only once the
/// caller has been authenticated as the configured issuer.
pub struct ReceiveNotification {
    pub sender: String,
    pub amount: u128,
    pub msg: ReceiveMsg,
}

/// A decoded instruction. Each contract handles some of them and answers
/// `UnknownMessage` to the others.
pub enum ExecuteMsg {
    /// Deposit the funds attached to the call.
    Deposit,
    /// Withdraw `amount` from the caller's balance.
    Withdraw { amount: u128 },
    /// Release the caller's unlocked deposits among `ids`.
    Release { ids: Vec<u64> },
    /// Pay every donation not yet withdrawn to the administrator.
    Sweep,
    /// Credit an incoming transfer of the external asset.
    Receive(ReceiveNotification),
}

/// A read-only request.
pub enum QueryMsg {
    GetBalance { address: String },
    GetNextId,
    GetEntryInfo { id: u64 },
    /// Entries after `start_after`, at most `limit` of them (capped).
    GetAllEntries { start_after: Option<u64>, limit: Option<u32> },
}

pub struct BalanceResponse {
    pub denom: String,
    pub amount: u128,
}

pub struct NextLockdropId {
    pub next_id: u64,
}

pub struct NextDonationId {
    pub next_id: u64,
}

pub struct AllDonations {
    pub donations: Vec<Donation>,
}

/// The answer to a query.
pub enum QueryResponse {
    Balance(BalanceResponse),
    NextLockdropId(NextLockdropId),
    Lockdrop(Lockdrop),
    NextDonationId(NextDonationId),
    Donation(Donation),
    AllDonations(AllDonations),
}

/// What an invocation did, for the host to publish as attributes.
pub enum Event {
    Deposited { sender: String, amount: u128 },
    Locked { sender: String, amount: u128, next_id: u64 },
    Donated { sender: String, amount: u128, next_id: u64 },
    Withdrawn { sender: String, total_amount: u128 },
    Converted {
        sender: String,
        sent_amount: u128,
        exchange_rate: ExchangeRate,
        total_amount: u128,
    },
}

/// The effects of a successful invocation: at most one outbound transfer, and
/// what happened.
pub struct Response {
    pub transfer: Option<Transfer>,
    pub event: Event,
}

} // verus!
