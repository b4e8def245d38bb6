use vstd::prelude::*;

verus! {

/// An ordered key-value store keyed by identifiers that it hands out itself, in
/// increasing order and never twice. Slot `i` holds the entry with identifier `i`,
/// or nothing once that entry has been removed.
pub struct LedgerStore<V> {
    slots: Vec<Option<V>>,
}

impl<V> View for LedgerStore<V> {
    type V = Map<u64, V>;

    closed spec fn view(&self) -> Map<u64, V> {
        Map::new(
            |k: u64| (k as int) < self.slots@.len() && self.slots@[k as int] is Some,
            |k: u64| self.slots@[k as int]->Some_0,
        )
    }
}

impl<V> LedgerStore<V> {
    /// The identifier that the next insertion will receive.
    pub closed spec fn spec_next_id(&self) -> nat {
        self.slots@.len()
    }

    pub closed spec fn wf(&self) -> bool {
        self.slots@.len() <= u64::MAX
    }

    /// Every stored identifier lies below the next one to be handed out.
    pub proof fn lemma_keys_below_next(&self)
        ensures
            forall|k: u64| #[trigger] self@.contains_key(k) ==> (k as nat) < self.spec_next_id(),
    {
    }

    pub fn new() -> (s: Self)
        ensures
            s.wf(),
            s@ == Map::<u64, V>::empty(),
            s.spec_next_id() == 0,
    {
        let s = LedgerStore { slots: Vec::new() };
        assert(s@ =~= Map::<u64, V>::empty());
        s
    }

    /// Rebuilds a store from its slots, as `slots` returned them; `None` where there
    /// are more slots than identifiers.
    pub fn from_slots(slots: Vec<Option<V>>) -> (r: Option<Self>)
        ensures
            r is Some <==> slots@.len() <= u64::MAX,
            r is Some ==> {
                &&& r->Some_0.wf()
                &&& r->Some_0.spec_next_id() == slots@.len()
                &&& forall|k: u64| #[trigger]
                    r->Some_0@.contains_key(k) <==> (k as int) < slots@.len() && slots@[k as int] is Some
                &&& forall|k: u64|
                    #[trigger] r->Some_0@.contains_key(k) ==> r->Some_0@[k] == slots@[k as int]->Some_0
            },
    {
        if slots.len() as u128 > u64::MAX as u128 {
            return None;
        }
        Some(LedgerStore { slots })
    }

    /// The slots, by identifier: `None` where an entry was removed.
    pub fn slots(&self) -> (r: &Vec<Option<V>>)
        ensures
            r@.len() == self.spec_next_id(),
            forall|k: u64| #[trigger]
                self@.contains_key(k) <==> (k as int) < r@.len() && r@[k as int] is Some,
            forall|k: u64| #[trigger] self@.contains_key(k) ==> self@[k] == r@[k as int]->Some_0,
    {
        &self.slots
    }

    pub fn next_id(&self) -> (n: u64)
        requires
            self.wf(),
        ensures
            n as nat == self.spec_next_id(),
    {
        self.slots.len() as u64
    }

    /// The entry stored under `id`, if any.
    pub fn get(&self, id: u64) -> (r: Option<&V>)
        requires
            self.wf(),
        ensures
            r is Some <==> self@.contains_key(id),
            r is Some ==> *r->Some_0 == self@[id],
    {
        if id < self.slots.len() as u64 {
            match &self.slots[id as usize] {
                Some(v) => Some(v),
                None => None,
            }
        } else {
            None
        }
    }

    /// Stores `v` under the next identifier and returns that identifier; `None`,
    /// with nothing changed, once the identifier space is used up.
    pub fn insert_next(&mut self, v: V) -> (r: Option<u64>)
        requires
            old(self).wf(),
        ensures
            final(self).wf(),
            old(self).spec_next_id() < u64::MAX ==> {
                &&& r == Some(old(self).spec_next_id() as u64)
                &&& final(self)@ == old(self)@.insert(old(self).spec_next_id() as u64, v)
                &&& final(self).spec_next_id() == old(self).spec_next_id() + 1
            },
            old(self).spec_next_id() >= u64::MAX ==> r is None && *final(self) == *old(self),
    {
        let n = self.slots.len() as u64;
        if n == u64::MAX {
            return None;
        }
        let ghost before = self@;
        self.slots.push(Some(v));
        assert(self@ =~= before.insert(n, v));
        Some(n)
    }

    /// Takes the entry stored under `id` out of the store. `None` tells that no
    /// entry was there, which is not the same as a successful removal.
    pub fn remove(&mut self, id: u64) -> (r: Option<V>)
        requires
            old(self).wf(),
        ensures
            final(self).wf(),
            r is Some <==> old(self)@.contains_key(id),
            r is Some ==> r->Some_0 == old(self)@[id],
            final(self)@ == old(self)@.remove(id),
            final(self).spec_next_id() == old(self).spec_next_id(),
    {
        if id < self.slots.len() as u64 {
            let ghost before = self@;
            let mut taken: Option<V> = None;
            self.slots.set_and_swap(id as usize, &mut taken);
            assert(self@ =~= before.remove(id));
            taken
        } else {
            assert(self@ =~= self@.remove(id));
            None
        }
    }
}

} // verus!
