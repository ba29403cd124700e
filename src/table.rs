use vstd::prelude::*;

use crate::address::Address;

verus! {

/// A key of a [`Table`]: a plain value that can be compared in executable code.
pub trait SlotKey: Copy + Sized {
    fn same(&self, other: &Self) -> (r: bool)
        ensures
            r == (*self == *other),
    ;
}

impl SlotKey for Address {
    fn same(&self, other: &Address) -> (r: bool) {
        *self == *other
    }
}

/// The key of an allowance: the account that grants it and the spender.
#[derive(Clone, Copy, Debug, PartialEq, Eq, Structural, Hash)]
pub struct AllowanceKey {
    pub owner: Address,
    pub spender: Address,
}

impl SlotKey for AllowanceKey {
    fn same(&self, other: &AllowanceKey) -> (r: bool) {
        *self == *other
    }
}

/// The sum of the amounts of a sequence of entries.
pub open spec fn entries_sum<K>(s: Seq<(K, u128)>) -> int
    decreases s.len(),
{
    if s.len() == 0 {
        0
    } else {
        entries_sum(s.drop_last()) + s.last().1
    }
}

proof fn lemma_sum_nonneg_and_bounds<K>(s: Seq<(K, u128)>)
    ensures
        entries_sum(s) >= 0,
        forall|i: int| 0 <= i < s.len() ==> s[i].1 <= entries_sum(s),
    decreases s.len(),
{
    if s.len() > 0 {
        lemma_sum_nonneg_and_bounds(s.drop_last());
        assert forall|i: int| 0 <= i < s.len() implies s[i].1 <= entries_sum(s) by {
            if i < s.len() - 1 {
                assert(s[i] == s.drop_last()[i]);
            }
        }
    }
}

proof fn lemma_sum_update<K>(s: Seq<(K, u128)>, i: int, e: (K, u128))
    requires
        0 <= i < s.len(),
    ensures
        entries_sum(s.update(i, e)) == entries_sum(s) - s[i].1 + e.1,
    decreases s.len(),
{
    let t = s.update(i, e);
    if i == s.len() - 1 {
        assert(t.drop_last() =~= s.drop_last());
    } else {
        assert(t.drop_last() =~= s.drop_last().update(i, e));
        lemma_sum_update(s.drop_last(), i, e);
    }
}

proof fn lemma_sum_push<K>(s: Seq<(K, u128)>, e: (K, u128))
    ensures
        entries_sum(s.push(e)) == entries_sum(s) + e.1,
{
    assert(s.push(e).drop_last() =~= s);
}

proof fn lemma_two_le_sum<K>(s: Seq<(K, u128)>, i: int, j: int)
    requires
        0 <= i < s.len(),
        0 <= j < s.len(),
        i != j,
    ensures
        s[i].1 + s[j].1 <= entries_sum(s),
    decreases s.len(),
{
    let t = s.drop_last();
    lemma_sum_nonneg_and_bounds(t);
    if i == s.len() - 1 {
        assert(s[j] == t[j]);
    } else if j == s.len() - 1 {
        assert(s[i] == t[i]);
    } else {
        assert(s[i] == t[i] && s[j] == t[j]);
        lemma_two_le_sum(t, i, j);
    }
}

/// The sum of the amounts that `m` gives the keys of `keys`, in turn.
pub open spec fn sum_over<K>(keys: Seq<K>, m: Map<K, nat>) -> int
    decreases keys.len(),
{
    if keys.len() == 0 {
        0
    } else {
        sum_over(keys.drop_last(), m) + m[keys.last()]
    }
}

proof fn lemma_sum_over_keys<K>(s: Seq<(K, u128)>, m: Map<K, nat>)
    requires
        forall|i: int| 0 <= i < s.len() ==> m[#[trigger] s[i].0] == s[i].1 as nat,
    ensures
        entries_sum(s) == sum_over(s.map_values(|e: (K, u128)| e.0), m),
    decreases s.len(),
{
    if s.len() > 0 {
        let t = s.drop_last();
        assert forall|i: int| 0 <= i < t.len() implies m[#[trigger] t[i].0] == t[i].1 as nat by {
            assert(t[i] == s[i]);
        }
        lemma_sum_over_keys(t, m);
        assert(s.map_values(|e: (K, u128)| e.0).drop_last() =~= t.map_values(
            |e: (K, u128)| e.0,
        ));
        assert(m[s[s.len() - 1].0] == s[s.len() - 1].1 as nat);
    }
}

/// A store of amounts by key, where a key that was never written holds zero.
///
/// Each key has at most one entry, so the sum of the entries is the sum of the
/// amounts of all keys whose amount is not zero.
#[verifier::reject_recursive_types(K)]
pub struct Table<K> {
    entries: Vec<(K, u128)>,
    model: Ghost<Map<K, nat>>,
}

impl<K: SlotKey> Table<K> {
    /// The amount held under each key (zero where none was written).
    pub closed spec fn view(&self) -> Map<K, nat> {
        self.model@
    }

    /// The sum of the amounts held under all keys.
    pub closed spec fn sum(&self) -> int {
        entries_sum(self.entries@)
    }

    /// The keys that have an entry, each once.
    pub closed spec fn keys(&self) -> Seq<K> {
        self.entries@.map_values(|e: (K, u128)| e.0)
    }

    pub closed spec fn wf(&self) -> bool {
        &&& forall|k: K| #[trigger] self.model@.dom().contains(k)
        &&& forall|i: int, j: int|
            0 <= i < j < self.entries@.len() ==> self.entries@[i].0 != self.entries@[j].0
        &&& forall|i: int|
            0 <= i < self.entries@.len() ==> self.model@[#[trigger] self.entries@[i].0]
                == self.entries@[i].1 as nat
        &&& forall|k: K|
            #[trigger] self.model@[k] != 0 ==> exists|i: int|
                0 <= i < self.entries@.len() && #[trigger] self.entries@[i].0 == k
    }

    /// An empty table: every key holds zero.
    pub fn new() -> (t: Self)
        ensures
            t.wf(),
            forall|k: K| #[trigger] t@[k] == 0,
            t.sum() == 0,
    {
        Table { entries: Vec::new(), model: Ghost(Map::new(|k: K| true, |k: K| 0nat)) }
    }

    fn find(&self, k: K) -> (r: Option<usize>)
        requires
            self.wf(),
        ensures
            match r {
                Some(i) => i < self.entries@.len() && self.entries@[i as int].0 == k,
                None => forall|i: int|
                    0 <= i < self.entries@.len() ==> self.entries@[i].0 != k,
            },
    {
        let mut i: usize = 0;
        while i < self.entries.len()
            invariant
                i <= self.entries@.len(),
                forall|j: int| 0 <= j < i ==> self.entries@[j].0 != k,
            decreases self.entries@.len() - i,
        {
            if self.entries[i].0.same(&k) {
                return Some(i);
            }
            i = i + 1;
        }
        None
    }

    /// The amount held under `k`.
    pub fn get(&self, k: K) -> (r: u128)
        requires
            self.wf(),
        ensures
            r as nat == self@[k],
    {
        match self.find(k) {
            Some(i) => self.entries[i].1,
            None => 0,
        }
    }

    /// Stores `v` under `k`; every other key keeps its amount.
    pub fn set(&mut self, k: K, v: u128)
        requires
            old(self).wf(),
        ensures
            final(self).wf(),
            final(self)@ == old(self)@.insert(k, v as nat),
            final(self).sum() == old(self).sum() - old(self)@[k] + v,
    {
        let ghost s0 = self.entries@;
        let ghost at: int;
        match self.find(k) {
            Some(i) => {
                self.entries.set(i, (k, v));
                proof {
                    at = i as int;
                    lemma_sum_update(s0, i as int, (k, v));
                }
            },
            None => {
                self.entries.push((k, v));
                proof {
                    at = s0.len() as int;
                    lemma_sum_push(s0, (k, v));
                }
            },
        }
        self.model = Ghost(self.model@.insert(k, v as nat));
        proof {
            let s = self.entries@;
            let m = self.model@;
            assert(s[at].0 == k);
            assert forall|k2: K| #[trigger] m[k2] != 0 implies exists|i: int|
                0 <= i < s.len() && #[trigger] s[i].0 == k2 by {
                if k2 != k {
                    let j = choose|j: int| 0 <= j < s0.len() && #[trigger] s0[j].0 == k2;
                    assert(s[j] == s0[j]);
                } else {
                    assert(s[at].0 == k2);
                }
            }
            assert forall|i: int|
                0 <= i < s.len() implies m[#[trigger] s[i].0] == s[i].1 as nat by {
                if i != at {
                    assert(s[i] == s0[i]);
                }
            }
            assert forall|i: int, j: int|
                0 <= i < j < s.len() implies s[i].0 != s[j].0 by {
                if i != at && j != at {
                    assert(s[i] == s0[i] && s[j] == s0[j]);
                } else if i == at {
                    assert(s[j] == s0[j]);
                } else {
                    assert(s[i] == s0[i]);
                }
            }
        }
    }

    /// No key holds more than the sum of all of them, which is never negative.
    pub proof fn lemma_amount_le_sum(&self, k: K)
        requires
            self.wf(),
        ensures
            0 <= self@[k] <= self.sum(),
    {
        lemma_sum_nonneg_and_bounds(self.entries@);
        if self@[k] != 0 {
            let i = choose|i: int| 0 <= i < self.entries@.len() && #[trigger] self.entries@[i].0 == k;
            assert(self.model@[self.entries@[i].0] == self.entries@[i].1 as nat);
        }
    }

    /// Two distinct keys hold no more than the sum of all keys together.
    pub proof fn lemma_two_le_sum(&self, k1: K, k2: K)
        requires
            self.wf(),
            k1 != k2,
        ensures
            self@[k1] + self@[k2] <= self.sum(),
    {
        self.lemma_amount_le_sum(k1);
        self.lemma_amount_le_sum(k2);
        if self@[k1] != 0 && self@[k2] != 0 {
            let i = choose|i: int| 0 <= i < self.entries@.len() && #[trigger] self.entries@[i].0 == k1;
            let j = choose|j: int| 0 <= j < self.entries@.len() && #[trigger] self.entries@[j].0 == k2;
            assert(self.model@[self.entries@[i].0] == self.entries@[i].1 as nat);
            assert(self.model@[self.entries@[j].0] == self.entries@[j].1 as nat);
            lemma_two_le_sum(self.entries@, i, j);
        }
    }

    /// The sum of the table is the sum of the amounts of its keys, which are
    /// free of repeats and include every key whose amount is not zero.
    pub proof fn lemma_sum_is_sum_over_keys(&self)
        requires
            self.wf(),
        ensures
            self.keys().no_duplicates(),
            forall|k: K| #[trigger] self@[k] != 0 ==> self.keys().contains(k),
            self.sum() == sum_over(self.keys(), self@),
    {
        let s = self.entries@;
        lemma_sum_over_keys(s, self.model@);
        assert forall|k: K| #[trigger] self@[k] != 0 implies self.keys().contains(k) by {
            let i = choose|i: int| 0 <= i < s.len() && #[trigger] s[i].0 == k;
            assert(self.keys()[i] == k);
        }
        assert forall|i: int, j: int|
            0 <= i < self.keys().len() && 0 <= j < self.keys().len() && i != j implies
                self.keys()[i] != self.keys()[j] by {
            if i < j {
                assert(s[i].0 != s[j].0);
            } else {
                assert(s[j].0 != s[i].0);
            }
        }
    }
}

} // verus!
