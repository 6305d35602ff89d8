//! A keyed table: an association list with distinct keys, viewed as a `Map`
//! from key views to values.

use vstd::prelude::*;
use crate::types::{Address, Symbol};

verus! {

/// A key whose equality is decided by its view.
pub trait TableKey: View + Sized {
    fn same_key(&self, other: &Self) -> (r: bool)
        ensures
            r == (self@ == other@);
}

impl TableKey for u64 {
    fn same_key(&self, other: &Self) -> (r: bool) {
        *self == *other
    }
}

impl TableKey for Address {
    fn same_key(&self, other: &Self) -> (r: bool) {
        self.same_as(other)
    }
}

/// The key of the wallet index: one disaster and one wallet.
pub struct WalletKey {
    pub disaster_id: u64,
    pub wallet: Address,
}

impl View for WalletKey {
    type V = (u64, Seq<char>);

    open spec fn view(&self) -> (u64, Seq<char>) {
        (self.disaster_id, self.wallet@)
    }
}

impl TableKey for WalletKey {
    fn same_key(&self, other: &Self) -> (r: bool) {
        self.disaster_id == other.disaster_id && self.wallet.same_as(&other.wallet)
    }
}

/// The key of a voucher: one disaster, one beneficiary wallet, one category.
pub struct VoucherKey {
    pub disaster_id: u64,
    pub beneficiary: Address,
    pub category: Symbol,
}

impl View for VoucherKey {
    type V = (u64, Seq<char>, Seq<char>);

    open spec fn view(&self) -> (u64, Seq<char>, Seq<char>) {
        (self.disaster_id, self.beneficiary@, self.category@)
    }
}

impl TableKey for VoucherKey {
    fn same_key(&self, other: &Self) -> (r: bool) {
        self.disaster_id == other.disaster_id && self.beneficiary.same_as(&other.beneficiary)
            && self.category.same_as(&other.category)
    }
}

/// Entries with pairwise distinct keys.
pub struct Table<K: TableKey, Val> {
    entries: Vec<(K, Val)>,
}

impl<K: TableKey, Val> Table<K, Val> {
    /// The view of the key stored at position `i`.
    pub closed spec fn key_at(&self, i: int) -> K::V {
        self.entries@[i].0@
    }

    /// Whether some entry holds key `k`.
    pub closed spec fn holds(&self, k: K::V) -> bool {
        exists|i: int| 0 <= i < self.entries@.len() && #[trigger] self.key_at(i) == k
    }

    /// The position of the entry that holds key `k`.
    pub closed spec fn position(&self, k: K::V) -> int {
        choose|i: int| 0 <= i < self.entries@.len() && #[trigger] self.key_at(i) == k
    }

    /// No two entries hold the same key.
    pub closed spec fn wf(&self) -> bool {
        forall|i: int, j: int|
            0 <= i < self.entries@.len() && 0 <= j < self.entries@.len() && i != j
                ==> #[trigger] self.key_at(i) != #[trigger] self.key_at(j)
    }

    proof fn lemma_position(&self, i: int)
        requires
            self.wf(),
            0 <= i < self.entries@.len(),
        ensures
            self.holds(self.key_at(i)),
            self.position(self.key_at(i)) == i,
    {
        assert(self.holds(self.key_at(i)));
    }
}

impl<K: TableKey, Val> View for Table<K, Val> {
    type V = Map<K::V, Val>;

    closed spec fn view(&self) -> Map<K::V, Val> {
        Map::new(|k: K::V| self.holds(k), |k: K::V| self.entries@[self.position(k)].1)
    }
}

impl<K: TableKey, Val> Table<K, Val> {
    /// An empty table.
    pub fn new() -> (t: Self)
        ensures
            t.wf(),
            t@ == Map::<K::V, Val>::empty(),
    {
        let t = Table { entries: Vec::new() };
        assert(t@ =~= Map::<K::V, Val>::empty());
        t
    }

    /// The position of the entry holding `k`, if any.
    fn find(&self, k: &K) -> (r: Option<usize>)
        requires
            self.wf(),
        ensures
            match r {
                Some(i) => i < self.entries@.len() && self.key_at(i as int) == k@,
                None => !self.holds(k@),
            },
    {
        let mut i: usize = 0;
        while i < self.entries.len()
            invariant
                i <= self.entries@.len(),
                forall|j: int| 0 <= j < i ==> #[trigger] self.key_at(j) != k@,
            decreases self.entries@.len() - i,
        {
            if self.entries[i].0.same_key(k) {
                return Some(i);
            }
            i = i + 1;
        }
        None
    }

    /// Whether the table holds `k`.
    pub fn contains(&self, k: &K) -> (r: bool)
        requires
            self.wf(),
        ensures
            r == self@.contains_key(k@),
    {
        self.find(k).is_some()
    }

    /// The value stored under `k`, if any.
    pub fn get(&self, k: &K) -> (r: Option<&Val>)
        requires
            self.wf(),
        ensures
            match r {
                Some(v) => self@.contains_key(k@) && *v == self@[k@],
                None => !self@.contains_key(k@),
            },
    {
        match self.find(k) {
            Some(i) => {
                proof {
                    self.lemma_position(i as int);
                }
                Some(&self.entries[i].1)
            },
            None => None,
        }
    }

    /// Stores `v` under `k`, replacing any value held there.
    pub fn insert(&mut self, k: K, v: Val)
        requires
            old(self).wf(),
        ensures
            final(self).wf(),
            final(self)@ == old(self)@.insert(k@, v),
    {
        let ghost kv = k@;
        let ghost pre = *self;
        match self.find(&k) {
            Some(i) => {
                self.entries.set(i, (k, v));
                proof {
                    pre.lemma_position(i as int);
                    assert forall|j: int| 0 <= j < self.entries@.len() implies #[trigger] self.key_at(j)
                        == pre.key_at(j) by {}
                    assert forall|q: K::V| self.holds(q) == pre.holds(q) by {
                        if pre.holds(q) {
                            let j = choose|j: int| 0 <= j < pre.entries@.len() && #[trigger] pre.key_at(j) == q;
                            assert(self.key_at(j) == q);
                        }
                        if self.holds(q) {
                            let j = choose|j: int| 0 <= j < self.entries@.len() && #[trigger] self.key_at(j) == q;
                            assert(pre.key_at(j) == q);
                        }
                    }
                    assert forall|q: K::V| #[trigger] self.holds(q) implies self.entries@[self.position(q)].1
                        == pre@.insert(kv, v)[q] by {
                        let j = self.position(q);
                        self.lemma_position(j);
                        pre.lemma_position(j);
                    }
                    assert(self@ =~= pre@.insert(kv, v));
                }
            },
            None => {
                self.entries.push((k, v));
                proof {
                    let n = pre.entries@.len() as int;
                    assert forall|j: int| 0 <= j < n implies #[trigger] self.key_at(j) == pre.key_at(j) by {}
                    assert(self.key_at(n) == kv);
                    assert forall|q: K::V| self.holds(q) == (pre.holds(q) || q == kv) by {
                        if pre.holds(q) {
                            let j = choose|j: int| 0 <= j < pre.entries@.len() && #[trigger] pre.key_at(j) == q;
                            assert(self.key_at(j) == q);
                        }
                        if self.holds(q) && q != kv {
                            let j = choose|j: int| 0 <= j < self.entries@.len() && #[trigger] self.key_at(j) == q;
                            assert(j != n);
                            assert(pre.key_at(j) == q);
                        }
                    }
                    assert forall|q: K::V| #[trigger] self.holds(q) implies self.entries@[self.position(q)].1
                        == pre@.insert(kv, v)[q] by {
                        let j = self.position(q);
                        self.lemma_position(j);
                        if j < n {
                            pre.lemma_position(j);
                        }
                    }
                    assert(self@ =~= pre@.insert(kv, v));
                }
            },
        }
    }
}

} // verus!
