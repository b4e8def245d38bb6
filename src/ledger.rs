use vstd::prelude::*;

use crate::error::ContractError;

verus! {

/// One running balance, keyed by the owner's address.
pub struct Account {
    pub address: String,
    pub balance: u128,
}

/// Per-address balances in the settlement asset. An address that was never
/// credited reads as zero; an account whose balance fell to zero stays stored.
pub struct AccountLedger {
    accounts: Vec<Account>,
    model: Ghost<Map<Seq<char>, u128>>,
}

/// A single step applied to one account.
pub enum LedgerOp {
    Credit(u128),
    Debit(u128),
}

/// The balance that `m` records for `a`, zero where it has none.
pub open spec fn balance_in(m: Map<Seq<char>, u128>, a: Seq<char>) -> u128 {
    if m.contains_key(a) {
        m[a]
    } else {
        0
    }
}

/// The balance after `op` on balance `b`; an operation that would leave the
/// range of `u128` fails and leaves `b` as it was.
pub open spec fn apply_op(b: int, op: LedgerOp) -> int {
    match op {
        LedgerOp::Credit(x) => if b + x <= u128::MAX {
            b + x
        } else {
            b
        },
        LedgerOp::Debit(x) => if x <= b {
            b - x
        } else {
            b
        },
    }
}

/// Whether `op` succeeds on balance `b`.
pub open spec fn op_succeeds(b: int, op: LedgerOp) -> bool {
    match op {
        LedgerOp::Credit(x) => b + x <= u128::MAX,
        LedgerOp::Debit(x) => x <= b,
    }
}

/// The balance after applying `ops` in order, starting from `b`.
pub open spec fn replay(b: int, ops: Seq<LedgerOp>) -> int
    decreases ops.len(),
{
    if ops.len() == 0 {
        b
    } else {
        apply_op(replay(b, ops.drop_last()), ops.last())
    }
}

/// Whatever sequence of credits and debits one account sees, its balance stays
/// between zero and the largest `u128`, and a step that fails leaves it unchanged.
pub proof fn lemma_balance_in_range(b: int, ops: Seq<LedgerOp>)
    requires
        0 <= b <= u128::MAX,
    ensures
        0 <= replay(b, ops) <= u128::MAX,
        ops.len() > 0 && !op_succeeds(replay(b, ops.drop_last()), ops.last()) ==> replay(b, ops)
            == replay(b, ops.drop_last()),
    decreases ops.len(),
{
    if ops.len() > 0 {
        lemma_balance_in_range(b, ops.drop_last());
    }
}

impl View for AccountLedger {
    type V = Map<Seq<char>, u128>;

    closed spec fn view(&self) -> Map<Seq<char>, u128> {
        self.model@
    }
}

impl AccountLedger {
    pub closed spec fn wf(&self) -> bool {
        &&& forall|i: int|
            0 <= i < self.accounts@.len() ==> {
                &&& self.model@.contains_key(#[trigger] self.accounts@[i].address@)
                &&& self.model@[self.accounts@[i].address@] == self.accounts@[i].balance
            }
        &&& forall|i: int, j: int|
            0 <= i < self.accounts@.len() && 0 <= j < self.accounts@.len() && i != j
                ==> #[trigger] self.accounts@[i].address@ != #[trigger] self.accounts@[j].address@
        &&& forall|a: Seq<char>|
            #[trigger] self.model@.contains_key(a) ==> exists|i: int|
                0 <= i < self.accounts@.len() && self.accounts@[i].address@ == a
    }

    pub fn new() -> (l: Self)
        ensures
            l.wf(),
            l@ == Map::<Seq<char>, u128>::empty(),
    {
        AccountLedger { accounts: Vec::new(), model: Ghost(Map::empty()) }
    }

    /// Rebuilds a ledger from persisted accounts; `None` where an address occurs twice.
    pub fn from_accounts(accounts: &Vec<Account>) -> (r: Option<Self>)
        ensures
            r is Some <==> forall|i: int, j: int|
                0 <= i < j < accounts@.len() ==> #[trigger] accounts@[i].address@
                    != #[trigger] accounts@[j].address@,
            r is Some ==> {
                &&& r->Some_0.wf()
                &&& forall|i: int|
                    0 <= i < accounts@.len() ==> r->Some_0@.contains_key(
                        #[trigger] accounts@[i].address@,
                    ) && r->Some_0@[accounts@[i].address@] == accounts@[i].balance
                &&& forall|a: Seq<char>| #[trigger]
                    r->Some_0@.contains_key(a) ==> exists|i: int|
                        0 <= i < accounts@.len() && accounts@[i].address@ == a
            },
    {
        let mut ledger = AccountLedger::new();
        let mut k: usize = 0;
        while k < accounts.len()
            invariant
                ledger.wf(),
                k <= accounts@.len(),
                forall|i: int, j: int|
                    0 <= i < j < k ==> #[trigger] accounts@[i].address@
                        != #[trigger] accounts@[j].address@,
                forall|i: int|
                    0 <= i < k ==> ledger@.contains_key(#[trigger] accounts@[i].address@)
                        && ledger@[accounts@[i].address@] == accounts@[i].balance,
                forall|a: Seq<char>| #[trigger]
                    ledger@.contains_key(a) ==> exists|i: int| 0 <= i < k && accounts@[i].address@ == a,
            decreases accounts@.len() - k,
        {
            let address = &accounts[k].address;
            match ledger.find(address) {
                Some(slot) => {
                    proof {
                        assert(ledger.model@.contains_key(ledger.accounts@[slot as int].address@));
                        assert(ledger@.contains_key(address@));
                        let i = choose|i: int| 0 <= i < k && accounts@[i].address@ == address@;
                        assert(accounts@[i].address@ == accounts@[k as int].address@);
                        assert(!(forall|i: int, j: int|
                            0 <= i < j < accounts@.len() ==> #[trigger] accounts@[i].address@
                                != #[trigger] accounts@[j].address@));
                    }
                    return None;
                },
                None => {
                    ledger.put(address, None, accounts[k].balance);
                    proof {
                        assert forall|i: int, j: int|
                            0 <= i < j < k + 1 implies #[trigger] accounts@[i].address@
                            != #[trigger] accounts@[j].address@ by {
                            if j == k {
                                assert(ledger@.contains_key(accounts@[i].address@));
                            }
                        }
                        assert forall|a: Seq<char>| #[trigger]
                            ledger@.contains_key(a) implies exists|i: int|
                            0 <= i < k + 1 && accounts@[i].address@ == a by {
                            if a == address@ {
                                assert(accounts@[k as int].address@ == a);
                            }
                        }
                    }
                },
            }
            k = k + 1;
        }
        Some(ledger)
    }

    /// The stored accounts, for persisting the ledger.
    pub fn accounts(&self) -> (r: &Vec<Account>)
        requires
            self.wf(),
        ensures
            forall|i: int|
                0 <= i < r@.len() ==> self@.contains_key(#[trigger] r@[i].address@) && self@[r@[i].address@]
                    == r@[i].balance,
            forall|a: Seq<char>|
                #[trigger] self@.contains_key(a) ==> exists|i: int|
                    0 <= i < r@.len() && r@[i].address@ == a,
    {
        &self.accounts
    }

    fn find(&self, address: &String) -> (r: Option<usize>)
        requires
            self.wf(),
        ensures
            r is Some ==> r->Some_0 < self.accounts@.len() && self.accounts@[r->Some_0 as int].address@
                == address@,
            r is None ==> !self@.contains_key(address@),
    {
        let mut i: usize = 0;
        while i < self.accounts.len()
            invariant
                self.wf(),
                i <= self.accounts@.len(),
                forall|j: int| 0 <= j < i ==> self.accounts@[j].address@ != address@,
            decreases self.accounts@.len() - i,
        {
            if self.accounts[i].address == *address {
                return Some(i);
            }
            i = i + 1;
        }
        None
    }

    /// The balance of `address`, zero for an address never credited.
    pub fn balance_of(&self, address: &String) -> (b: u128)
        requires
            self.wf(),
        ensures
            b == balance_in(self@, address@),
    {
        match self.find(address) {
            Some(i) => self.accounts[i].balance,
            None => 0,
        }
    }

    /// Records `balance` for `address`, found at `slot` or absent where `slot` is `None`.
    fn put(&mut self, address: &String, slot: Option<usize>, balance: u128)
        requires
            old(self).wf(),
            slot is Some ==> slot->Some_0 < old(self).accounts@.len()
                && old(self).accounts@[slot->Some_0 as int].address@ == address@,
            slot is None ==> !old(self)@.contains_key(address@),
        ensures
            final(self).wf(),
            final(self)@ == old(self)@.insert(address@, balance),
    {
        let ghost before = self.accounts@;
        let entry = Account { address: address.clone(), balance };
        match slot {
            Some(i) => {
                self.accounts.set(i, entry);
                self.model = Ghost(self.model@.insert(address@, balance));
                assert forall|k: int|
                    0 <= k < self.accounts@.len() && k != i implies self.accounts@[k].address@
                    != address@ by {
                    assert(before[k].address@ != before[i as int].address@);
                }
                assert forall|a: Seq<char>| #[trigger]
                    self.model@.contains_key(a) implies exists|k: int|
                    0 <= k < self.accounts@.len() && self.accounts@[k].address@ == a by {
                    if a != address@ {
                        let k = choose|k: int| 0 <= k < before.len() && before[k].address@ == a;
                        assert(self.accounts@[k].address@ == a);
                    } else {
                        assert(self.accounts@[i as int].address@ == a);
                    }
                }
            },
            None => {
                self.accounts.push(entry);
                self.model = Ghost(self.model@.insert(address@, balance));
                assert forall|k: int| 0 <= k < before.len() implies #[trigger] before[k].address@
                    != address@ by {
                    assert(old(self).model@.contains_key(before[k].address@));
                }
                assert forall|a: Seq<char>| #[trigger]
                    self.model@.contains_key(a) implies exists|k: int|
                    0 <= k < self.accounts@.len() && self.accounts@[k].address@ == a by {
                    if a != address@ {
                        let k = choose|k: int| 0 <= k < before.len() && before[k].address@ == a;
                        assert(self.accounts@[k].address@ == a);
                    } else {
                        assert(self.accounts@[before.len() as int].address@ == a);
                    }
                }
            },
        }
    }

    /// Adds `amount` to the balance of `address` with checked addition and returns
    /// the new balance. Fails with `ArithmeticOverflow`, changing nothing, where the
    /// sum would exceed `u128::MAX`. No other account is touched.
    pub fn credit(&mut self, address: &String, amount: u128) -> (r: Result<u128, ContractError>)
        requires
            old(self).wf(),
        ensures
            final(self).wf(),
            op_succeeds(balance_in(old(self)@, address@) as int, LedgerOp::Credit(amount)) ==> {
                &&& r == Ok::<u128, ContractError>(
                    (balance_in(old(self)@, address@) + amount) as u128,
                )
                &&& final(self)@ == old(self)@.insert(address@, r->Ok_0)
            },
            !op_succeeds(balance_in(old(self)@, address@) as int, LedgerOp::Credit(amount)) ==> r
                == Err::<u128, ContractError>(ContractError::ArithmeticOverflow) && *final(self)
                == *old(self),
            balance_in(final(self)@, address@) == apply_op(
                balance_in(old(self)@, address@) as int,
                LedgerOp::Credit(amount),
            ),
    {
        let slot = self.find(address);
        let current = match slot {
            Some(i) => self.accounts[i].balance,
            None => 0,
        };
        match current.checked_add(amount) {
            Some(next) => {
                self.put(address, slot, next);
                Ok(next)
            },
            None => Err(ContractError::ArithmeticOverflow),
        }
    }

    /// Subtracts `amount` from the balance of `address` with checked subtraction and
    /// returns the new balance. Fails with `InsufficientBalance`, changing nothing,
    /// where `amount` exceeds the balance. No other account is touched.
    pub fn debit(&mut self, address: &String, amount: u128) -> (r: Result<u128, ContractError>)
        requires
            old(self).wf(),
        ensures
            final(self).wf(),
            op_succeeds(balance_in(old(self)@, address@) as int, LedgerOp::Debit(amount)) ==> {
                &&& r == Ok::<u128, ContractError>(
                    (balance_in(old(self)@, address@) - amount) as u128,
                )
                &&& final(self)@ == old(self)@.insert(address@, r->Ok_0)
            },
            !op_succeeds(balance_in(old(self)@, address@) as int, LedgerOp::Debit(amount)) ==> r
                == Err::<u128, ContractError>(ContractError::InsufficientBalance) && *final(self)
                == *old(self),
            balance_in(final(self)@, address@) == apply_op(
                balance_in(old(self)@, address@) as int,
                LedgerOp::Debit(amount),
            ),
    {
        let slot = self.find(address);
        let current = match slot {
            Some(i) => self.accounts[i].balance,
            None => 0,
        };
        match current.checked_sub(amount) {
            Some(next) => {
                self.put(address, slot, next);
                Ok(next)
            },
            None => Err(ContractError::InsufficientBalance),
        }
    }
}

} // verus!
