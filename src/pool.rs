use vstd::prelude::*;

use crate::error::ContractError;
use crate::store::LedgerStore;

verus! {

/// Largest page that a listing of donations returns.
pub const MAX_PAGE: u32 = 30;

/// Page size of a listing that names none.
pub const DEFAULT_PAGE: u32 = 10;

/// A donation as recorded in the log.
pub struct Contribution {
    pub donator: String,
    pub amount: u128,
}

/// A donation as a query reports it: whether a sweep has paid it out included.
pub struct Donation {
    pub id: u64,
    pub donator: String,
    pub amount: u128,
    pub withdrawn: bool,
}

/// An append-only log of donations, swept by an administrator.
///
/// Every donation below the watermark `swept` has been paid out, every one at or
/// above it has not, and `pending` holds the sum of the latter. A sweep pays
/// `pending` and moves the watermark to the end of the log, so its cost does not
/// depend on how many donations were made, zero-amount ones included.
pub struct DonationPool {
    log: LedgerStore<Contribution>,
    swept: u64,
    pending: u128,
    admin: String,
}

/// The sum of the amounts of the entries `lo .. hi` of `m`.
pub open spec fn amount_sum(m: Map<u64, Contribution>, lo: nat, hi: nat) -> int
    decreases hi,
{
    if hi <= lo {
        0
    } else {
        amount_sum(m, lo, (hi - 1) as nat) + m[(hi - 1) as u64].amount
    }
}

/// What a sweep by `caller` answers on a pool whose log is `m`, of which the
/// entries `swept .. next` are not yet paid out.
pub open spec fn sweep_outcome(
    m: Map<u64, Contribution>,
    swept: nat,
    next: nat,
    admin: Seq<char>,
    caller: Seq<char>,
) -> Result<u128, ContractError> {
    if caller != admin {
        Err(ContractError::Unauthorized)
    } else if amount_sum(m, swept, next) == 0 {
        Err(ContractError::NothingToWithdraw)
    } else if amount_sum(m, swept, next) > u128::MAX {
        Err(ContractError::ArithmeticOverflow)
    } else {
        Ok(amount_sum(m, swept, next) as u128)
    }
}

/// Sweeping twice in a row, with no donation in between, pays nothing the second
/// time. A successful sweep leaves its pool with the watermark at the end of the
/// log; on such a pool every sweep fails, the administrator's with
/// `NothingToWithdraw`, so no second transfer is made.
pub proof fn lemma_sweep_idempotent(p: DonationPool, caller: Seq<char>)
    requires
        p.swept_below() == p.spec_next_id(),
    ensures
        sweep_outcome(p.entries(), p.swept_below(), p.spec_next_id(), p.spec_admin(), caller) is Err,
        caller == p.spec_admin() ==> sweep_outcome(
            p.entries(),
            p.swept_below(),
            p.spec_next_id(),
            p.spec_admin(),
            caller,
        ) == Err::<u128, ContractError>(ContractError::NothingToWithdraw),
{
}

proof fn lemma_amount_sum_agree(m1: Map<u64, Contribution>, m2: Map<u64, Contribution>, lo: nat, hi: nat)
    requires
        hi <= u64::MAX + 1,
        forall|k: u64| lo <= k < hi ==> #[trigger] m1[k] == m2[k],
    ensures
        amount_sum(m1, lo, hi) == amount_sum(m2, lo, hi),
    decreases hi,
{
    if hi > lo {
        lemma_amount_sum_agree(m1, m2, lo, (hi - 1) as nat);
        assert(m1[(hi - 1) as u64] == m2[(hi - 1) as u64]);
    }
}

proof fn lemma_amount_sum_nonneg(m: Map<u64, Contribution>, lo: nat, hi: nat)
    ensures
        amount_sum(m, lo, hi) >= 0,
    decreases hi,
{
    if hi > lo {
        lemma_amount_sum_nonneg(m, lo, (hi - 1) as nat);
    }
}

impl DonationPool {
    pub closed spec fn wf(&self) -> bool {
        &&& self.log.wf()
        &&& forall|k: u64| (k as nat) < self.log.spec_next_id() ==> #[trigger] self.log@.contains_key(k)
        &&& self.swept as nat <= self.log.spec_next_id()
        &&& self.pending as int == amount_sum(self.log@, self.swept as nat, self.log.spec_next_id())
    }

    /// The log, by identifier.
    pub closed spec fn entries(&self) -> Map<u64, Contribution> {
        self.log@
    }

    pub closed spec fn spec_next_id(&self) -> nat {
        self.log.spec_next_id()
    }

    /// Every donation below this identifier has been paid out; no other has.
    pub closed spec fn swept_below(&self) -> nat {
        self.swept as nat
    }

    pub closed spec fn spec_admin(&self) -> Seq<char> {
        self.admin@
    }

    pub fn new(admin: String) -> (p: Self)
        ensures
            p.wf(),
            p.entries() == Map::<u64, Contribution>::empty(),
            p.spec_next_id() == 0,
            p.swept_below() == 0,
            p.spec_admin() == admin@,
    {
        DonationPool { log: LedgerStore::new(), swept: 0, pending: 0, admin }
    }

    /// Rebuilds a pool from its persisted parts: the log, the watermark below
    /// which every donation has been paid out, and the administrator. `None` where
    /// the log has a gap, the watermark lies past its end, or the donations awaiting
    /// a sweep do not sum within `u128`.
    pub fn from_parts(log: LedgerStore<Contribution>, swept: u64, admin: String) -> (r: Option<Self>)
        requires
            log.wf(),
        ensures
            r is Some <==> {
                &&& forall|k: u64| (k as nat) < log.spec_next_id() ==> #[trigger] log@.contains_key(k)
                &&& swept as nat <= log.spec_next_id()
                &&& amount_sum(log@, swept as nat, log.spec_next_id()) <= u128::MAX
            },
            r is Some ==> {
                &&& r->Some_0.wf()
                &&& r->Some_0.entries() == log@
                &&& r->Some_0.spec_next_id() == log.spec_next_id()
                &&& r->Some_0.swept_below() == swept as nat
                &&& r->Some_0.spec_admin() == admin@
            },
    {
        let next = log.next_id();
        if swept > next {
            return None;
        }
        let mut k: u64 = 0;
        while k < next
            invariant
                log.wf(),
                next as nat == log.spec_next_id(),
                k <= next,
                forall|j: u64| j < k ==> #[trigger] log@.contains_key(j),
            decreases next - k,
        {
            if log.get(k).is_none() {
                return None;
            }
            k = k + 1;
        }
        let mut pending: u128 = 0;
        let mut overflow = false;
        let mut i: u64 = swept;
        while i < next
            invariant
                log.wf(),
                next as nat == log.spec_next_id(),
                swept <= i <= next,
                forall|j: u64| (j as nat) < log.spec_next_id() ==> #[trigger] log@.contains_key(j),
                !overflow ==> pending as int == amount_sum(log@, swept as nat, i as nat),
                overflow ==> amount_sum(log@, swept as nat, i as nat) > u128::MAX,
            decreases next - i,
        {
            let amount = match log.get(i) {
                Some(c) => c.amount,
                None => 0,
            };
            assert(amount_sum(log@, swept as nat, (i + 1) as nat) == amount_sum(
                log@,
                swept as nat,
                i as nat,
            ) + amount);
            if !overflow {
                match pending.checked_add(amount) {
                    Some(p) => pending = p,
                    None => overflow = true,
                }
            }
            i = i + 1;
        }
        if overflow {
            return None;
        }
        Some(DonationPool { log, swept, pending, admin })
    }

    /// The log, for persisting the pool.
    pub fn log(&self) -> (l: &LedgerStore<Contribution>)
        requires
            self.wf(),
        ensures
            l.wf(),
            l@ == self.entries(),
            l.spec_next_id() == self.spec_next_id(),
    {
        &self.log
    }

    /// The watermark: every donation below it has been paid out.
    pub fn swept(&self) -> (s: u64)
        ensures
            s as nat == self.swept_below(),
    {
        self.swept
    }

    pub fn admin(&self) -> (a: &String)
        ensures
            a@ == self.spec_admin(),
    {
        &self.admin
    }

    pub fn next_id(&self) -> (n: u64)
        requires
            self.wf(),
        ensures
            n as nat == self.spec_next_id(),
    {
        self.log.next_id()
    }

    /// The donations not yet paid out, summed.
    pub fn pending(&self) -> (t: u128)
        requires
            self.wf(),
        ensures
            t as int == amount_sum(self.entries(), self.swept_below(), self.spec_next_id()),
    {
        self.pending
    }

    /// Appends a donation of `amount` by `donator` under the next sequence number
    /// and returns the counter after the increment. Fails with `ArithmeticOverflow`,
    /// changing nothing, where the counter or the sum of the donations awaiting a
    /// sweep would overflow.
    pub fn contribute(&mut self, donator: &String, amount: u128) -> (r: Result<u64, ContractError>)
        requires
            old(self).wf(),
        ensures
            final(self).wf(),
            final(self).spec_admin() == old(self).spec_admin(),
            final(self).swept_below() == old(self).swept_below(),
            ({
                let n = old(self).spec_next_id();
                let pending = amount_sum(old(self).entries(), old(self).swept_below(), n);
                if n + 1 <= u64::MAX && pending + amount <= u128::MAX {
                    &&& r == Ok::<u64, ContractError>((n + 1) as u64)
                    &&& final(self).entries() == old(self).entries().insert(
                        n as u64,
                        Contribution { donator: *donator, amount },
                    )
                    &&& final(self).spec_next_id() == n + 1
                } else {
                    &&& r == Err::<u64, ContractError>(ContractError::ArithmeticOverflow)
                    &&& *final(self) == *old(self)
                }
            }),
    {
        let id = self.log.next_id();
        if id == u64::MAX {
            return Err(ContractError::ArithmeticOverflow);
        }
        let pending = match self.pending.checked_add(amount) {
            Some(p) => p,
            None => return Err(ContractError::ArithmeticOverflow),
        };
        let ghost before = self.log@;
        let entry = Contribution { donator: donator.clone(), amount };
        let _ = self.log.insert_next(entry);
        self.pending = pending;
        proof {
            let lo = self.swept as nat;
            lemma_amount_sum_agree(before, self.log@, lo, id as nat);
            assert(self.log@[id] == entry);
            assert forall|k: u64| (k as nat) < self.log.spec_next_id() implies #[trigger] self.log@.contains_key(k) by {
                if k != id {
                    assert(before.contains_key(k));
                }
            }
        }
        Ok(id + 1)
    }

    /// A copy of donation `id` with its withdrawn flag, if it exists.
    pub fn info(&self, id: u64) -> (r: Option<Donation>)
        requires
            self.wf(),
        ensures
            r is Some <==> self.entries().contains_key(id),
            r is Some ==> r->Some_0 == (Donation {
                id,
                donator: self.entries()[id].donator,
                amount: self.entries()[id].amount,
                withdrawn: (id as nat) < self.swept_below(),
            }),
    {
        match self.log.get(id) {
            Some(c) => Some(
                Donation {
                    id,
                    donator: c.donator.clone(),
                    amount: c.amount,
                    withdrawn: id < self.swept,
                },
            ),
            None => None,
        }
    }

    /// Pays out every donation not yet withdrawn, in one sum, and marks them all
    /// withdrawn. Only the administrator may sweep (`Unauthorized` otherwise); where
    /// the donations awaiting a sweep sum to zero it fails with
    /// `NothingToWithdraw`. A failure changes nothing. Its cost is constant.
    pub fn sweep(&mut self, caller: &String) -> (r: Result<u128, ContractError>)
        requires
            old(self).wf(),
        ensures
            final(self).wf(),
            r == sweep_outcome(
                old(self).entries(),
                old(self).swept_below(),
                old(self).spec_next_id(),
                old(self).spec_admin(),
                caller@,
            ),
            r is Err ==> *final(self) == *old(self),
            r is Ok ==> {
                &&& final(self).entries() == old(self).entries()
                &&& final(self).spec_next_id() == old(self).spec_next_id()
                &&& final(self).swept_below() == old(self).spec_next_id()
                &&& final(self).spec_admin() == old(self).spec_admin()
            },
    {
        if *caller != self.admin {
            return Err(ContractError::Unauthorized);
        }
        if self.pending == 0 {
            return Err(ContractError::NothingToWithdraw);
        }
        let total = self.pending;
        self.swept = self.log.next_id();
        self.pending = 0;
        Ok(total)
    }

    /// The donations from `start` on, in ascending order, at most `limit` of them
    /// and never more than `MAX_PAGE`.
    pub fn page(&self, start: u64, limit: u32) -> (r: Vec<Donation>)
        requires
            self.wf(),
        ensures
            r@.len() == (if start as nat >= self.spec_next_id() {
                0
            } else {
                vstd::math::min(
                    vstd::math::min(limit as int, MAX_PAGE as int),
                    self.spec_next_id() - start,
                )
            }),
            forall|i: int|
                0 <= i < r@.len() ==> #[trigger] r@[i] == (Donation {
                    id: (start + i) as u64,
                    donator: self.entries()[(start + i) as u64].donator,
                    amount: self.entries()[(start + i) as u64].amount,
                    withdrawn: start + i < self.swept_below(),
                }),
    {
        let cap: u32 = if limit < MAX_PAGE {
            limit
        } else {
            MAX_PAGE
        };
        let next = self.log.next_id();
        let mut out: Vec<Donation> = Vec::new();
        let mut id = start;
        let mut n: u32 = 0;
        while n < cap && id < next
            invariant
                self.wf(),
                next as nat == self.spec_next_id(),
                cap == vstd::math::min(limit as int, MAX_PAGE as int),
                n <= cap,
                id == start + n,
                start < next ==> id <= next,
                start >= next ==> n == 0,
                out@.len() == n,
                forall|i: int|
                    0 <= i < out@.len() ==> #[trigger] out@[i] == (Donation {
                        id: (start + i) as u64,
                        donator: self.entries()[(start + i) as u64].donator,
                        amount: self.entries()[(start + i) as u64].amount,
                        withdrawn: start + i < self.swept_below(),
                    }),
            decreases cap - n,
        {
            assert(self.entries().contains_key(id));
            match self.info(id) {
                Some(d) => out.push(d),
                None => {},
            }
            n = n + 1;
            id = id + 1;
        }
        out
    }
}

} // verus!
