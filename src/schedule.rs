use vstd::prelude::*;

use cosmwasm_std::{Decimal, Uint128};

use crate::error::ContractError;
use crate::store::LedgerStore;

verus! {

/// A deposit locked until `unlock_time` (seconds), stored under `id`.
pub struct Lockdrop {
    pub id: u64,
    pub owner: String,
    pub amount: u128,
    pub unlock_time: u64,
}

/// Locked deposits keyed by a sequence number, paid out with a bonus once unlocked.
pub struct TimeLockSchedule {
    deposits: LedgerStore<Lockdrop>,
    bonus_percent: u64,
}

/// The payout of a locked `amount` under a bonus of `percent` (105 is +5%),
/// rounded down.
pub open spec fn bonus_of(amount: u128, percent: u64) -> int {
    (amount as int * percent as int) / 100
}

/// Entry `id` of `m` may be released by `claimant` at time `now`: it exists, it
/// belongs to `claimant` and its unlock time has come.
pub open spec fn qualifies(m: Map<u64, Lockdrop>, id: u64, claimant: Seq<char>, now: u64) -> bool {
    &&& m.contains_key(id)
    &&& m[id].owner@ == claimant
    &&& now >= m[id].unlock_time
}

/// The identifiers of `ids` that qualify, each once, in order of first occurrence.
pub open spec fn released_ids(
    ids: Seq<u64>,
    m: Map<u64, Lockdrop>,
    claimant: Seq<char>,
    now: u64,
) -> Seq<u64>
    decreases ids.len(),
{
    if ids.len() == 0 {
        Seq::empty()
    } else {
        let prev = released_ids(ids.drop_last(), m, claimant, now);
        let id = ids.last();
        if qualifies(m, id, claimant, now) && !prev.contains(id) {
            prev.push(id)
        } else {
            prev
        }
    }
}

/// The sum of the payouts of the entries `sel` of `m`.
pub open spec fn payout_sum(sel: Seq<u64>, m: Map<u64, Lockdrop>, percent: u64) -> int
    decreases sel.len(),
{
    if sel.len() == 0 {
        0
    } else {
        payout_sum(sel.drop_last(), m, percent) + bonus_of(m[sel.last()].amount, percent)
    }
}

/// `m` without the entries `sel`.
pub open spec fn without(m: Map<u64, Lockdrop>, sel: Seq<u64>) -> Map<u64, Lockdrop> {
    m.remove_keys(sel.to_set())
}

proof fn lemma_released_shape(ids: Seq<u64>, m: Map<u64, Lockdrop>, claimant: Seq<char>, now: u64)
    ensures
        released_ids(ids, m, claimant, now).no_duplicates(),
        forall|x: u64| #[trigger]
            released_ids(ids, m, claimant, now).contains(x) ==> qualifies(m, x, claimant, now),
        forall|i: int|
            0 <= i < ids.len() && qualifies(m, #[trigger] ids[i], claimant, now) ==> released_ids(
                ids,
                m,
                claimant,
                now,
            ).contains(ids[i]),
    decreases ids.len(),
{
    if ids.len() > 0 {
        let rest = ids.drop_last();
        lemma_released_shape(rest, m, claimant, now);
        let prev = released_ids(rest, m, claimant, now);
        let cur = released_ids(ids, m, claimant, now);
        assert forall|i: int|
            0 <= i < ids.len() && qualifies(m, #[trigger] ids[i], claimant, now) implies cur.contains(
            ids[i],
        ) by {
            if i < ids.len() - 1 {
                assert(rest[i] == ids[i]);
                assert(prev.contains(ids[i]));
                if cur != prev {
                    let k = choose|k: int| 0 <= k < prev.len() && prev[k] == ids[i];
                    assert(cur[k] == ids[i]);
                }
            } else if !prev.contains(ids[i]) {
                assert(cur[cur.len() - 1] == ids[i]);
            }
        }
        assert forall|x: u64| #[trigger] cur.contains(x) implies qualifies(m, x, claimant, now) by {
            if cur != prev {
                let k = choose|k: int| 0 <= k < cur.len() && cur[k] == x;
                if k < prev.len() {
                    assert(prev[k] == x);
                    assert(prev.contains(x));
                } else {
                    assert(x == ids.last());
                }
            } else {
                assert(prev.contains(x));
            }
        }
    }
}

proof fn lemma_nothing_qualifies(ids: Seq<u64>, m: Map<u64, Lockdrop>, claimant: Seq<char>, now: u64)
    requires
        forall|i: int| 0 <= i < ids.len() ==> !qualifies(m, #[trigger] ids[i], claimant, now),
    ensures
        released_ids(ids, m, claimant, now).len() == 0,
    decreases ids.len(),
{
    if ids.len() > 0 {
        let rest = ids.drop_last();
        assert forall|i: int| 0 <= i < rest.len() implies !qualifies(
            m,
            #[trigger] rest[i],
            claimant,
            now,
        ) by {
            assert(rest[i] == ids[i]);
        }
        lemma_nothing_qualifies(rest, m, claimant, now);
    }
}

/// A release pays each qualifying entry once however often its identifier is
/// listed, and releasing the same identifiers again, by the same claimant at the
/// same time, finds nothing left: the two calls together pay each qualifying
/// entry's bonus exactly once.
pub proof fn lemma_release_at_most_once(
    m: Map<u64, Lockdrop>,
    ids: Seq<u64>,
    claimant: Seq<char>,
    now: u64,
)
    ensures
        released_ids(ids, m, claimant, now).no_duplicates(),
        released_ids(
            ids,
            without(m, released_ids(ids, m, claimant, now)),
            claimant,
            now,
        ).len() == 0,
{
    let sel = released_ids(ids, m, claimant, now);
    let rest = without(m, sel);
    lemma_released_shape(ids, m, claimant, now);
    assert forall|i: int| 0 <= i < ids.len() implies !qualifies(
        rest,
        #[trigger] ids[i],
        claimant,
        now,
    ) by {
        if qualifies(rest, ids[i], claimant, now) {
            assert(!sel.to_set().contains(ids[i]));
            assert(qualifies(m, ids[i], claimant, now));
        }
    }
    lemma_nothing_qualifies(ids, rest, claimant, now);
}

/// Relies on cosmwasm_std's `Uint128::checked_mul_floor` with `Decimal::percent`:
/// `amount * percent / 100` rounded down, an error where that exceeds `Uint128`.
#[verifier::external_body]
fn bonus_amount(amount: u128, percent: u64) -> (r: Option<u128>)
    ensures
        bonus_of(amount, percent) <= u128::MAX ==> r == Some(bonus_of(amount, percent) as u128),
        bonus_of(amount, percent) > u128::MAX ==> r is None,
{
    match Uint128::new(amount).checked_mul_floor(Decimal::percent(percent)) {
        Ok(v) => Some(v.u128()),
        Err(_) => None,
    }
}

fn contains_id(v: &Vec<u64>, id: u64) -> (r: bool)
    ensures
        r == v@.contains(id),
{
    let mut i: usize = 0;
    while i < v.len()
        invariant
            i <= v@.len(),
            forall|j: int| 0 <= j < i ==> v@[j] != id,
        decreases v@.len() - i,
    {
        if v[i] == id {
            return true;
        }
        i = i + 1;
    }
    false
}

impl TimeLockSchedule {
    pub closed spec fn wf(&self) -> bool {
        &&& self.deposits.wf()
        &&& forall|k: u64| #[trigger] self.deposits@.contains_key(k) ==> self.deposits@[k].id == k
    }

    /// The stored deposits by identifier.
    pub closed spec fn entries(&self) -> Map<u64, Lockdrop> {
        self.deposits@
    }

    /// The identifier the next lock will receive.
    pub closed spec fn spec_next_id(&self) -> nat {
        self.deposits.spec_next_id()
    }

    pub closed spec fn spec_bonus_percent(&self) -> u64 {
        self.bonus_percent
    }

    pub fn new(bonus_percent: u64) -> (s: Self)
        ensures
            s.wf(),
            s.entries() == Map::<u64, Lockdrop>::empty(),
            s.spec_next_id() == 0,
            s.spec_bonus_percent() == bonus_percent,
    {
        TimeLockSchedule { deposits: LedgerStore::new(), bonus_percent }
    }

    /// Rebuilds a schedule from its persisted parts; `None` where an entry is not
    /// stored under its own identifier.
    pub fn from_parts(deposits: LedgerStore<Lockdrop>, bonus_percent: u64) -> (r: Option<Self>)
        requires
            deposits.wf(),
        ensures
            r is Some <==> forall|k: u64| #[trigger]
                deposits@.contains_key(k) ==> deposits@[k].id == k,
            r is Some ==> {
                &&& r->Some_0.wf()
                &&& r->Some_0.entries() == deposits@
                &&& r->Some_0.spec_next_id() == deposits.spec_next_id()
                &&& r->Some_0.spec_bonus_percent() == bonus_percent
            },
    {
        let next = deposits.next_id();
        let mut k: u64 = 0;
        while k < next
            invariant
                deposits.wf(),
                next as nat == deposits.spec_next_id(),
                k <= next,
                forall|j: u64| j < k && #[trigger] deposits@.contains_key(j) ==> deposits@[j].id == j,
            decreases next - k,
        {
            match deposits.get(k) {
                Some(d) => {
                    if d.id != k {
                        return None;
                    }
                },
                None => {},
            }
            k = k + 1;
        }
        proof {
            deposits.lemma_keys_below_next();
        }
        Some(TimeLockSchedule { deposits, bonus_percent })
    }

    /// The stored deposits, for persisting the schedule.
    pub fn deposits(&self) -> (d: &LedgerStore<Lockdrop>)
        requires
            self.wf(),
        ensures
            d.wf(),
            d@ == self.entries(),
            d.spec_next_id() == self.spec_next_id(),
    {
        &self.deposits
    }

    pub fn bonus_percent(&self) -> (p: u64)
        ensures
            p == self.spec_bonus_percent(),
    {
        self.bonus_percent
    }

    pub fn next_id(&self) -> (n: u64)
        requires
            self.wf(),
        ensures
            n as nat == self.spec_next_id(),
    {
        self.deposits.next_id()
    }

    /// A copy of the deposit stored under `id`, if any.
    pub fn info(&self, id: u64) -> (r: Option<Lockdrop>)
        requires
            self.wf(),
        ensures
            r is Some <==> self.entries().contains_key(id),
            r is Some ==> r->Some_0 == self.entries()[id],
    {
        match self.deposits.get(id) {
            Some(d) => Some(
                Lockdrop {
                    id: d.id,
                    owner: d.owner.clone(),
                    amount: d.amount,
                    unlock_time: d.unlock_time,
                },
            ),
            None => None,
        }
    }

    /// Locks `amount` for `owner` until `now + duration` under the next sequence
    /// number, and returns the counter after the increment. Fails with
    /// `ArithmeticOverflow`, changing nothing, where the unlock time or the counter
    /// would leave `u64`.
    pub fn lock(&mut self, owner: &String, amount: u128, now: u64, duration: u64) -> (r: Result<
        u64,
        ContractError,
    >)
        requires
            old(self).wf(),
        ensures
            final(self).wf(),
            final(self).spec_bonus_percent() == old(self).spec_bonus_percent(),
            ({
                let n = old(self).spec_next_id();
                if now + duration <= u64::MAX && n + 1 <= u64::MAX {
                    &&& r == Ok::<u64, ContractError>((n + 1) as u64)
                    &&& final(self).entries() == old(self).entries().insert(
                        n as u64,
                        Lockdrop {
                            id: n as u64,
                            owner: *owner,
                            amount,
                            unlock_time: (now + duration) as u64,
                        },
                    )
                    &&& final(self).spec_next_id() == n + 1
                } else {
                    &&& r == Err::<u64, ContractError>(ContractError::ArithmeticOverflow)
                    &&& *final(self) == *old(self)
                }
            }),
    {
        let unlock_time = match now.checked_add(duration) {
            Some(t) => t,
            None => return Err(ContractError::ArithmeticOverflow),
        };
        let id = self.deposits.next_id();
        if id == u64::MAX {
            return Err(ContractError::ArithmeticOverflow);
        }
        let entry = Lockdrop { id, owner: owner.clone(), amount, unlock_time };
        let stored = self.deposits.insert_next(entry);
        proof {
            self.deposits.lemma_keys_below_next();
        }
        match stored {
            Some(_) => Ok(id + 1),
            None => Err(ContractError::ArithmeticOverflow),
        }
    }

    /// Releases the entries listed in `ids` that exist, belong to `claimant` and are
    /// unlocked at `now`, each once however often it is listed, removes them, and
    /// returns the sum of their payouts. Fails with `NothingToRelease` where none
    /// qualifies and with `ArithmeticOverflow` where the sum leaves `u128`; a failure
    /// changes nothing.
    pub fn release(&mut self, ids: &Vec<u64>, claimant: &String, now: u64) -> (r: Result<
        u128,
        ContractError,
    >)
        requires
            old(self).wf(),
        ensures
            final(self).wf(),
            final(self).spec_bonus_percent() == old(self).spec_bonus_percent(),
            final(self).spec_next_id() == old(self).spec_next_id(),
            ({
                let sel = released_ids(ids@, old(self).entries(), claimant@, now);
                let total = payout_sum(sel, old(self).entries(), old(self).spec_bonus_percent());
                if sel.len() == 0 {
                    &&& r == Err::<u128, ContractError>(ContractError::NothingToRelease)
                    &&& *final(self) == *old(self)
                } else if total > u128::MAX {
                    &&& r == Err::<u128, ContractError>(ContractError::ArithmeticOverflow)
                    &&& *final(self) == *old(self)
                } else {
                    &&& r == Ok::<u128, ContractError>(total as u128)
                    &&& final(self).entries() == without(old(self).entries(), sel)
                }
            }),
    {
        let ghost m = self.deposits@;
        let percent = self.bonus_percent;
        let mut selected: Vec<u64> = Vec::new();
        let mut total: u128 = 0;
        let mut overflow = false;
        let ghost mut sum: int = 0;
        let mut i: usize = 0;
        while i < ids.len()
            invariant
                self.wf(),
                self.deposits@ == m,
                self.bonus_percent == percent,
                i <= ids@.len(),
                selected@ == released_ids(ids@.take(i as int), m, claimant@, now),
                sum == payout_sum(selected@, m, percent),
                sum >= 0,
                overflow ==> sum > u128::MAX,
                !overflow ==> total == sum,
            decreases ids@.len() - i,
        {
            let id = ids[i];
            assert(ids@.take(i + 1).drop_last() == ids@.take(i as int));
            assert(ids@.take(i + 1).last() == id);
            match self.deposits.get(id) {
                Some(d) => {
                    if d.owner == *claimant && now >= d.unlock_time && !contains_id(&selected, id) {
                        let ghost bonus = bonus_of(d.amount, percent);
                        assert(bonus >= 0) by (nonlinear_arith)
                            requires
                                bonus == (d.amount as int * percent as int) / 100,
                        ;
                        if !overflow {
                            match bonus_amount(d.amount, percent) {
                                Some(b) => match total.checked_add(b) {
                                    Some(t) => total = t,
                                    None => overflow = true,
                                },
                                None => overflow = true,
                            }
                        }
                        selected.push(id);
                        proof {
                            sum = sum + bonus;
                            assert(selected@.drop_last() =~= released_ids(
                                ids@.take(i as int),
                                m,
                                claimant@,
                                now,
                            ));
                        }
                    }
                },
                None => {},
            }
            i = i + 1;
        }
        assert(ids@.take(ids@.len() as int) == ids@);
        if selected.len() == 0 {
            return Err(ContractError::NothingToRelease);
        }
        if overflow {
            return Err(ContractError::ArithmeticOverflow);
        }
        let mut k: usize = 0;
        while k < selected.len()
            invariant
                self.wf(),
                self.bonus_percent == percent,
                self.deposits.spec_next_id() == old(self).deposits.spec_next_id(),
                k <= selected@.len(),
                self.deposits@ == without(m, selected@.take(k as int)),
            decreases selected@.len() - k,
        {
            let _ = self.deposits.remove(selected[k]);
            proof {
                let before = selected@.take(k as int);
                let after = selected@.take(k + 1);
                assert(after.to_set() =~= before.to_set().insert(selected@[k as int])) by {
                    assert forall|x: u64| after.to_set().contains(x) implies before.to_set().insert(
                        selected@[k as int],
                    ).contains(x) by {
                        let j = choose|j: int| 0 <= j < after.len() && after[j] == x;
                        if j < k {
                            assert(before[j] == x);
                        }
                    }
                    assert forall|x: u64| before.to_set().insert(selected@[k as int]).contains(
                        x,
                    ) implies after.to_set().contains(x) by {
                        if x == selected@[k as int] {
                            assert(after[k as int] == x);
                        } else {
                            let j = choose|j: int| 0 <= j < before.len() && before[j] == x;
                            assert(after[j] == x);
                        }
                    }
                }
                assert(self.deposits@ =~= without(m, after));
            }
            k = k + 1;
        }
        assert(selected@.take(selected@.len() as int) == selected@);
        Ok(total)
    }
}

} // verus!
