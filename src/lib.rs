//! Ledger accounting engines: per-address balances, time-locked deposits with a
//! bonus payout, conversion of an externally issued asset at an oracle rate, and a
//! donation pool swept by an administrator. Each engine turns one decoded message
//! into a state change and at most one outbound transfer.

pub mod donations;
pub mod error;
pub mod funds;
pub mod lockdrop;
pub mod ledger;
pub mod msg;
pub mod oracle;
pub mod pool;
pub mod schedule;
pub mod store;
pub mod vault;
