//! Storage entries that come in families: by milestone or proposal number, and
//! by address.

use std::collections::HashMap;
use vstd::prelude::*;

use crate::types::Address;

verus! {

/// The value that a map holds under a key, if any.
pub open spec fn lookup<K, V>(m: Map<K, V>, k: K) -> Option<V> {
    if m.contains_key(k) {
        Some(m[k])
    } else {
        None
    }
}

/// Entries by number.
#[derive(Clone, Debug, PartialEq)]
pub struct Table<V> {
    entries: HashMap<u32, V>,
}

impl<V> View for Table<V> {
    type V = Map<u32, V>;

    closed spec fn view(&self) -> Map<u32, V> {
        self.entries@
    }
}

impl<V: Copy> Table<V> {
    pub fn new() -> (t: Self)
        ensures
            t@ == Map::<u32, V>::empty(),
    {
        Table { entries: HashMap::new() }
    }

    /// The entry of a number, if there is one.
    pub fn get(&self, key: u32) -> (r: Option<V>)
        ensures
            r == lookup(self@, key),
    {
        broadcast use vstd::std_specs::hash::group_hash_axioms;

        match self.entries.get(&key) {
            Some(v) => Some(*v),
            None => None,
        }
    }

    /// Whether a number has an entry.
    pub fn has(&self, key: u32) -> (r: bool)
        ensures
            r == self@.contains_key(key),
    {
        broadcast use vstd::std_specs::hash::group_hash_axioms;

        self.entries.contains_key(&key)
    }

    /// Writes the entry of a number.
    pub fn set(&mut self, key: u32, value: V)
        ensures
            final(self)@ == old(self)@.insert(key, value),
    {
        broadcast use vstd::std_specs::hash::group_hash_axioms;

        self.entries.insert(key, value);
    }

    /// Removes the entry of a number, if there is one.
    pub fn remove(&mut self, key: u32)
        ensures
            final(self)@ == old(self)@.remove(key),
    {
        broadcast use vstd::std_specs::hash::group_hash_axioms;

        self.entries.remove(&key);
        assert(self@ =~= old(self)@.remove(key));
    }
}

/// Counters by address.
#[derive(Clone, Debug, PartialEq)]
pub struct Counters {
    entries: Vec<(Address, u32)>,
}

/// The counters that a list of entries stands for: a later entry of an address
/// replaces an earlier one.
pub closed spec fn counters_of(s: Seq<(Address, u32)>) -> Map<Address, u32>
    decreases s.len(),
{
    if s.len() == 0 {
        Map::empty()
    } else {
        counters_of(s.drop_last()).insert(s.last().0, s.last().1)
    }
}

impl View for Counters {
    type V = Map<Address, u32>;

    closed spec fn view(&self) -> Map<Address, u32> {
        counters_of(self.entries@)
    }
}

/// An address that is in no entry from `i` on is looked up among those before.
proof fn lemma_counters_prefix(s: Seq<(Address, u32)>, a: Address, i: int)
    requires
        0 <= i <= s.len(),
        forall|j: int| i <= j < s.len() ==> (#[trigger] s[j]).0 != a,
    ensures
        lookup(counters_of(s), a) == lookup(counters_of(s.take(i)), a),
    decreases s.len(),
{
    if i == s.len() {
        assert(s.take(i) =~= s);
    } else {
        let t = s.drop_last();
        assert forall|j: int| i <= j < t.len() implies (#[trigger] t[j]).0 != a by {
            assert(s[j].0 != a);
        }
        lemma_counters_prefix(t, a, i);
        assert(t.take(i) =~= s.take(i));
        assert(s[s.len() - 1].0 != a);
    }
}

/// Rewriting the last entry of an address rewrites its counter and no other.
proof fn lemma_counters_update(s: Seq<(Address, u32)>, a: Address, i: int, value: u32)
    requires
        0 <= i < s.len(),
        s[i].0 == a,
        forall|j: int| i < j < s.len() ==> (#[trigger] s[j]).0 != a,
    ensures
        counters_of(s.update(i, (a, value))) == counters_of(s).insert(a, value),
    decreases s.len(),
{
    let u = s.update(i, (a, value));
    if i == s.len() - 1 {
        assert(u.drop_last() =~= s.drop_last());
        assert(counters_of(u) =~= counters_of(s).insert(a, value));
    } else {
        let t = s.drop_last();
        assert forall|j: int| i < j < t.len() implies (#[trigger] t[j]).0 != a by {
            assert(s[j].0 != a);
        }
        lemma_counters_update(t, a, i, value);
        assert(u.drop_last() =~= t.update(i, (a, value)));
        assert(s[s.len() - 1].0 != a);
        assert(counters_of(u) =~= counters_of(s).insert(a, value));
    }
}

impl Counters {
    pub fn new() -> (c: Self)
        ensures
            c@ == Map::<Address, u32>::empty(),
    {
        Counters { entries: Vec::new() }
    }

    /// The counter of an address, if it has one.
    pub fn get(&self, address: Address) -> (r: Option<u32>)
        ensures
            r == lookup(self@, address),
    {
        let mut i: usize = self.entries.len();
        while i > 0
            invariant
                i <= self.entries@.len(),
                forall|j: int|
                    i <= j < self.entries@.len() ==> (#[trigger] self.entries@[j]).0 != address,
            decreases i,
        {
            i -= 1;
            if self.entries[i].0 == address {
                proof {
                    lemma_counters_prefix(self.entries@, address, i as int + 1);
                    let p = self.entries@.take(i as int + 1);
                    assert(p.last() == self.entries@[i as int]);
                }
                return Some(self.entries[i].1);
            }
        }
        proof {
            lemma_counters_prefix(self.entries@, address, 0);
            assert(self.entries@.take(0).len() == 0);
        }
        None
    }

    /// Writes the counter of an address.
    pub fn set(&mut self, address: Address, value: u32)
        ensures
            final(self)@ == old(self)@.insert(address, value),
    {
        let mut i: usize = self.entries.len();
        while i > 0
            invariant
                i <= self.entries@.len(),
                self.entries@ == old(self).entries@,
                forall|j: int|
                    i <= j < self.entries@.len() ==> (#[trigger] self.entries@[j]).0 != address,
            decreases i,
        {
            i -= 1;
            if self.entries[i].0 == address {
                proof {
                    lemma_counters_update(self.entries@, address, i as int, value);
                }
                self.entries.set(i, (address, value));
                return;
            }
        }
        self.entries.push((address, value));
        assert(self.entries@.drop_last() =~= old(self).entries@);
    }
}

} // verus!
