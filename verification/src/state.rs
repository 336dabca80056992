use vstd::prelude::*;

use crate::error::ContractError;

verus! {

/// An amount of one denomination.
#[derive(Debug)]
pub struct Coin {
    pub denom: String,
    pub amount: u128,
}

/// What a [`Coin`] stands for.
pub struct CoinView {
    pub denom: Seq<char>,
    pub amount: u128,
}

impl View for Coin {
    type V = CoinView;

    open spec fn view(&self) -> CoinView {
        CoinView { denom: self.denom@, amount: self.amount }
    }
}

/// The coins of a list, each by its view, in the list's order.
pub open spec fn coins_view(coins: Seq<Coin>) -> Seq<CoinView> {
    Seq::new(coins.len(), |i: int| coins[i]@)
}

/// The state kept for one owner.
#[derive(Debug)]
pub struct Counter {
    pub count: i32,
    pub total_funds: Vec<Coin>,
    pub owner: String,
}

/// What a [`Counter`] stands for.
pub struct CounterView {
    pub count: int,
    pub total_funds: Seq<CoinView>,
    pub owner: Seq<char>,
}

impl View for Counter {
    type V = CounterView;

    open spec fn view(&self) -> CounterView {
        CounterView {
            count: self.count as int,
            total_funds: coins_view(self.total_funds@),
            owner: self.owner@,
        }
    }
}

/// The view of a counter that may be absent.
pub open spec fn counter_option_view(c: Option<Counter>) -> Option<CounterView> {
    match c {
        Some(c) => Some(c@),
        None => None,
    }
}

impl Coin {
    /// A copy of this coin.
    pub fn duplicate(&self) -> (c: Coin)
        ensures
            c@ == self@,
    {
        Coin { denom: self.denom.clone(), amount: self.amount }
    }
}

/// A copy of a list of coins, in the same order.
pub fn duplicate_coins(coins: &Vec<Coin>) -> (r: Vec<Coin>)
    ensures
        coins_view(r@) == coins_view(coins@),
{
    let mut r: Vec<Coin> = Vec::new();
    let mut i: usize = 0;
    while i < coins.len()
        invariant
            i <= coins.len(),
            r.len() == i,
            forall|j: int| 0 <= j < i ==> r[j]@ == coins[j]@,
        decreases coins.len() - i,
    {
        r.push(coins[i].duplicate());
        i += 1;
    }
    assert(coins_view(r@) =~= coins_view(coins@));
    r
}

impl Counter {
    /// A copy of this counter.
    pub fn duplicate(&self) -> (c: Counter)
        ensures
            c@ == self@,
    {
        Counter {
            count: self.count,
            total_funds: duplicate_coins(&self.total_funds),
            owner: self.owner.clone(),
        }
    }
}

/// What `state` holds for `owner`, if anything.
pub open spec fn lookup(state: Map<Seq<char>, CounterView>, owner: Seq<char>) -> Option<
    CounterView,
> {
    if state.contains_key(owner) {
        Some(state[owner])
    } else {
        None
    }
}

/// One entry of the store: a counter under the owner that it is kept for.
struct Slot {
    key: String,
    counter: Counter,
}

/// The counters, one at most for each owner.
pub struct CounterStore {
    slots: Vec<Slot>,
}

impl CounterStore {
    /// No owner has two entries.
    pub closed spec fn wf(&self) -> bool {
        forall|i: int, j: int|
            0 <= i < j < self.slots.len() ==> self.slots[i].key@ != self.slots[j].key@
    }

    /// Whether the entry at `i` is kept for `owner`.
    spec fn holds_at(&self, i: int, owner: Seq<char>) -> bool {
        0 <= i < self.slots.len() && self.slots[i].key@ == owner
    }

    /// Some entry is kept for `owner`.
    spec fn has(&self, owner: Seq<char>) -> bool {
        exists|i: int| self.holds_at(i, owner)
    }

    /// The position of the entry kept for `owner`.
    spec fn position(&self, owner: Seq<char>) -> int {
        choose|i: int| self.holds_at(i, owner)
    }

    /// The counter stored for `owner`, if there is one.
    pub open spec fn get(&self, owner: Seq<char>) -> Option<CounterView> {
        lookup(self@, owner)
    }

    /// In a well-formed store the entry at `i` is the one its owner maps to.
    proof fn lemma_slot(&self, i: int)
        requires
            self.wf(),
            0 <= i < self.slots.len(),
        ensures
            self@.contains_key(self.slots[i].key@),
            self@[self.slots[i].key@] == self.slots[i].counter@,
    {
        let owner = self.slots[i].key@;
        assert(self.holds_at(i, owner));
        let p = self.position(owner);
        assert(self.holds_at(p, owner));
        assert(p == i);
    }

    /// An empty store.
    pub fn new() -> (s: CounterStore)
        ensures
            s.wf(),
            s@ == Map::<Seq<char>, CounterView>::empty(),
    {
        let s = CounterStore { slots: Vec::new() };
        assert(s@ =~= Map::<Seq<char>, CounterView>::empty());
        s
    }

    /// Where the entry for `owner` stands, if there is one.
    fn find(&self, owner: &String) -> (r: Option<usize>)
        requires
            self.wf(),
        ensures
            match r {
                Some(i) => self.holds_at(i as int, owner@),
                None => !self.has(owner@),
            },
    {
        let mut i: usize = 0;
        while i < self.slots.len()
            invariant
                i <= self.slots.len(),
                forall|j: int| 0 <= j < i ==> !self.holds_at(j, owner@),
            decreases self.slots.len() - i,
        {
            if self.slots[i].key == *owner {
                return Some(i);
            }
            i += 1;
        }
        None
    }

    /// The counter of `owner`, or nothing where none is stored.
    pub fn may_load(&self, owner: &String) -> (r: Option<Counter>)
        requires
            self.wf(),
        ensures
            counter_option_view(r) == self.get(owner@),
    {
        match self.find(owner) {
            Some(i) => {
                proof {
                    self.lemma_slot(i as int);
                }
                Some(self.slots[i].counter.duplicate())
            },
            None => None,
        }
    }

    /// The counter of `owner`; `NotFound` where none is stored.
    pub fn load(&self, owner: &String) -> (r: Result<Counter, ContractError>)
        requires
            self.wf(),
        ensures
            match r {
                Ok(c) => self.get(owner@) == Some(c@),
                Err(e) => self.get(owner@).is_none() && e == ContractError::NotFound,
            },
    {
        match self.may_load(owner) {
            Some(c) => Ok(c),
            None => Err(ContractError::NotFound),
        }
    }

    /// Stores `counter` for `owner`, in place of what was stored for it.
    pub fn save(&mut self, owner: &String, counter: Counter)
        requires
            old(self).wf(),
        ensures
            final(self).wf(),
            final(self)@ == old(self)@.insert(owner@, counter@),
    {
        let ghost before = *self;
        let ghost value = counter@;
        let slot = Slot { key: owner.clone(), counter };
        match self.find(owner) {
            Some(i) => {
                self.slots.set(i, slot);
                assert(self.wf());
                assert forall|k: Seq<char>| self.has(k) <==> before.has(k) by {
                    if self.has(k) {
                        assert(before.holds_at(self.position(k), k));
                    }
                    if before.has(k) {
                        assert(self.holds_at(before.position(k), k));
                    }
                }
                assert forall|k: Seq<char>| self.has(k) implies #[trigger] self@[k]
                    == before@.insert(owner@, value)[k] by {
                    let p = self.position(k);
                    assert(self.holds_at(p, k));
                    self.lemma_slot(p);
                    if k != owner@ {
                        assert(before.holds_at(p, k));
                        before.lemma_slot(p);
                    } else {
                        assert(p == i);
                    }
                }
                assert forall|k: Seq<char>| self@.dom().contains(k) == before@.insert(
                    owner@,
                    value,
                ).dom().contains(k) by {
                    assert(self.has(k) <==> before.has(k));
                    assert(before.holds_at(i as int, owner@));
                }
                assert(self@.dom() =~= before@.insert(owner@, value).dom());
            },
            None => {
                self.slots.push(slot);
                let ghost n = before.slots.len() as int;
                assert(self.wf()) by {
                    assert forall|i: int, j: int| 0 <= i < j < self.slots.len() implies self.slots[i].key@
                        != self.slots[j].key@ by {
                        if j == n {
                            assert(!before.holds_at(i, owner@));
                        }
                    }
                }
                assert forall|k: Seq<char>| self.has(k) <==> (before.has(k) || k == owner@) by {
                    if self.has(k) {
                        let p = self.position(k);
                        if p < n {
                            assert(before.holds_at(p, k));
                        }
                    }
                    if before.has(k) {
                        assert(self.holds_at(before.position(k), k));
                    }
                    if k == owner@ {
                        assert(self.holds_at(n, k));
                    }
                }
                assert forall|k: Seq<char>| self.has(k) implies #[trigger] self@[k]
                    == before@.insert(owner@, value)[k] by {
                    let p = self.position(k);
                    assert(self.holds_at(p, k));
                    self.lemma_slot(p);
                    if k != owner@ {
                        assert(before.holds_at(p, k));
                        before.lemma_slot(p);
                    } else {
                        assert(self.holds_at(n, k));
                        assert(p == n);
                    }
                }
                assert forall|k: Seq<char>| self@.dom().contains(k) == before@.insert(
                    owner@,
                    value,
                ).dom().contains(k) by {
                    assert(self.has(k) <==> (before.has(k) || k == owner@));
                }
                assert(self@.dom() =~= before@.insert(owner@, value).dom());
            },
        }
        assert(self@ =~= before@.insert(owner@, value));
    }
}

impl View for CounterStore {
    type V = Map<Seq<char>, CounterView>;

    closed spec fn view(&self) -> Map<Seq<char>, CounterView> {
        Map::new(
            |owner: Seq<char>| self.has(owner),
            |owner: Seq<char>| self.slots[self.position(owner)].counter@,
        )
    }
}

} // verus!
