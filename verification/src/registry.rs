//! A map from addresses to values, kept as a list of slots.
//!
//! The contracts of this crate key their books by address. A registry holds
//! at most one slot per address and is read through its view, a mathematical
//! map; the order of the slots is the order in which addresses were first
//! entered, and only [`Registry::slot`] lets a caller see it.

use vstd::prelude::*;
use crate::address::Address;

verus! {

/// One entry of a registry.
pub struct Slot<V> {
    pub key: Address,
    pub value: V,
}

/// A map from addresses to values.
pub struct Registry<V> {
    slots: Vec<Slot<V>>,
}

/// Whether some slot of `s` has the key `key`.
pub open spec fn has_key<V>(s: Seq<Slot<V>>, key: Address) -> bool {
    exists|i: int| 0 <= i < s.len() && (#[trigger] s[i]).key == key
}

/// The index of the slot of `key` in `s`.
pub open spec fn index_of<V>(s: Seq<Slot<V>>, key: Address) -> int {
    choose|i: int| 0 <= i < s.len() && (#[trigger] s[i]).key == key
}

/// No key has two slots.
pub open spec fn unique_keys<V>(s: Seq<Slot<V>>) -> bool {
    forall|i: int, j: int| 0 <= i < j < s.len() ==> (#[trigger] s[i]).key != (#[trigger] s[j]).key
}

/// The slots as a map.
pub open spec fn slots_map<V>(s: Seq<Slot<V>>) -> Map<Address, V> {
    Map::new(|k: Address| has_key(s, k), |k: Address| s[index_of(s, k)].value)
}

pub proof fn lemma_slot_in_map<V>(s: Seq<Slot<V>>, i: int)
    requires
        unique_keys(s),
        0 <= i < s.len(),
    ensures
        has_key(s, s[i].key),
        index_of(s, s[i].key) == i,
        slots_map(s).dom().contains(s[i].key),
        slots_map(s)[s[i].key] == s[i].value,
{
    let k = s[i].key;
    assert(has_key(s, k));
    let p = index_of(s, k);
    assert(0 <= p < s.len() && s[p].key == k);
    if p < i {
        assert(s[p].key != s[i].key);
    } else if i < p {
        assert(s[i].key != s[p].key);
    }
}

proof fn lemma_update_slot<V>(s: Seq<Slot<V>>, i: int, e: Slot<V>)
    requires
        unique_keys(s),
        0 <= i < s.len(),
        e.key == s[i].key,
    ensures
        unique_keys(s.update(i, e)),
        slots_map(s.update(i, e)) =~= slots_map(s).insert(e.key, e.value),
{
    let t = s.update(i, e);
    assert forall|j: int, k: int| 0 <= j < k < t.len() implies (#[trigger] t[j]).key != (
    #[trigger] t[k]).key by {
        assert(s[j].key != s[k].key);
    }
    assert forall|a: Address| has_key(t, a) <==> has_key(s, a) by {
        if has_key(t, a) {
            let j = index_of(t, a);
            assert(s[j].key == a);
        }
        if has_key(s, a) {
            let j = index_of(s, a);
            assert(t[j].key == a);
        }
    }
    assert forall|a: Address| has_key(t, a) implies slots_map(t)[a] == slots_map(s).insert(
        e.key,
        e.value,
    )[a] by {
        let j = index_of(t, a);
        lemma_slot_in_map(t, j);
        if j != i {
            lemma_slot_in_map(s, j);
        }
    }
}

proof fn lemma_push_slot<V>(s: Seq<Slot<V>>, e: Slot<V>)
    requires
        unique_keys(s),
        !has_key(s, e.key),
    ensures
        unique_keys(s.push(e)),
        slots_map(s.push(e)) =~= slots_map(s).insert(e.key, e.value),
{
    let t = s.push(e);
    assert forall|j: int, k: int| 0 <= j < k < t.len() implies (#[trigger] t[j]).key != (
    #[trigger] t[k]).key by {
        if k < s.len() {
            assert(s[j].key != s[k].key);
        } else {
            assert(s[j].key != e.key);
        }
    }
    assert forall|a: Address| has_key(t, a) <==> (has_key(s, a) || a == e.key) by {
        if has_key(t, a) {
            let j = index_of(t, a);
            if j < s.len() {
                assert(s[j].key == a);
            }
        }
        if has_key(s, a) {
            let j = index_of(s, a);
            assert(t[j].key == a);
        }
        if a == e.key {
            assert(t[s.len() as int].key == a);
        }
    }
    assert forall|a: Address| has_key(t, a) implies slots_map(t)[a] == slots_map(s).insert(
        e.key,
        e.value,
    )[a] by {
        let j = index_of(t, a);
        lemma_slot_in_map(t, j);
        if j < s.len() {
            lemma_slot_in_map(s, j);
        }
    }
}

proof fn lemma_remove_slot<V>(s: Seq<Slot<V>>, i: int)
    requires
        unique_keys(s),
        0 <= i < s.len(),
    ensures
        unique_keys(s.remove(i)),
        slots_map(s.remove(i)) =~= slots_map(s).remove(s[i].key),
{
    let t = s.remove(i);
    assert forall|j: int| 0 <= j < t.len() implies #[trigger] t[j] == s[if j < i {
        j
    } else {
        j + 1
    }] by {}
    assert forall|j: int, k: int| 0 <= j < k < t.len() implies (#[trigger] t[j]).key != (
    #[trigger] t[k]).key by {
        let j2 = if j < i {
            j
        } else {
            j + 1
        };
        let k2 = if k < i {
            k
        } else {
            k + 1
        };
        assert(s[j2].key != s[k2].key);
    }
    assert forall|a: Address| has_key(t, a) <==> (has_key(s, a) && a != s[i].key) by {
        if has_key(t, a) {
            let j = index_of(t, a);
            let j2 = if j < i {
                j
            } else {
                j + 1
            };
            assert(s[j2].key == a);
            if j2 < i {
                assert(s[j2].key != s[i].key);
            } else {
                assert(s[i].key != s[j2].key);
            }
        }
        if has_key(s, a) && a != s[i].key {
            let j = index_of(s, a);
            let j2 = if j < i {
                j
            } else {
                j - 1
            };
            assert(t[j2].key == a);
        }
    }
    assert forall|a: Address| has_key(t, a) implies slots_map(t)[a] == slots_map(s).remove(
        s[i].key,
    )[a] by {
        let j = index_of(t, a);
        lemma_slot_in_map(t, j);
        let j2 = if j < i {
            j
        } else {
            j + 1
        };
        lemma_slot_in_map(s, j2);
    }
}

impl<V> View for Registry<V> {
    type V = Map<Address, V>;

    open spec fn view(&self) -> Map<Address, V> {
        slots_map(self.listing())
    }
}

impl<V> Registry<V> {
    /// The slots in the order in which they are kept.
    pub closed spec fn listing(&self) -> Seq<Slot<V>> {
        self.slots@
    }

    /// No address has two slots.
    pub open spec fn wf(&self) -> bool {
        unique_keys(self.listing())
    }

    /// An empty registry.
    pub fn new() -> (registry: Registry<V>)
        ensures
            registry.wf(),
            registry.listing().len() == 0,
            registry@ =~= Map::<Address, V>::empty(),
    {
        Registry { slots: Vec::new() }
    }

    /// The number of slots.
    pub fn len(&self) -> (n: usize)
        ensures
            n == self.listing().len(),
    {
        self.slots.len()
    }

    /// The slot at position `i`.
    pub fn slot(&self, i: usize) -> (slot: &Slot<V>)
        requires
            i < self.listing().len(),
        ensures
            *slot == self.listing()[i as int],
    {
        &self.slots[i]
    }

    fn find(&self, key: Address) -> (at: Option<usize>)
        ensures
            match at {
                Some(i) => i < self.listing().len() && self.listing()[i as int].key == key,
                None => !has_key(self.listing(), key),
            },
    {
        let mut i: usize = 0;
        while i < self.slots.len()
            invariant
                i <= self.slots.len(),
                forall|j: int| 0 <= j < i ==> (#[trigger] self.slots@[j]).key != key,
            decreases self.slots.len() - i,
        {
            if self.slots[i].key == key {
                return Some(i);
            }
            i = i + 1;
        }
        None
    }

    /// The value under `key`, if there is one.
    pub fn get(&self, key: Address) -> (value: Option<&V>)
        requires
            self.wf(),
        ensures
            match value {
                Some(v) => self@.dom().contains(key) && *v == self@[key],
                None => !self@.dom().contains(key),
            },
    {
        match self.find(key) {
            Some(i) => {
                proof {
                    lemma_slot_in_map(self.listing(), i as int);
                }
                Some(&self.slots[i].value)
            },
            None => None,
        }
    }

    /// Puts `value` under `key`, in place of what was there.
    pub fn set(&mut self, key: Address, value: V)
        requires
            old(self).wf(),
        ensures
            final(self).wf(),
            final(self)@ == old(self)@.insert(key, value),
    {
        match self.find(key) {
            Some(i) => {
                proof {
                    lemma_update_slot(self.listing(), i as int, Slot { key, value });
                }
                self.slots.set(i, Slot { key, value });
            },
            None => {
                proof {
                    lemma_push_slot(self.listing(), Slot { key, value });
                }
                self.slots.push(Slot { key, value });
            },
        }
    }

    /// Takes the slot of `key` out and returns its value, if there is one.
    pub fn remove(&mut self, key: Address) -> (value: Option<V>)
        requires
            old(self).wf(),
        ensures
            final(self).wf(),
            final(self)@ == old(self)@.remove(key),
            match value {
                Some(v) => old(self)@.dom().contains(key) && v == old(self)@[key],
                None => !old(self)@.dom().contains(key),
            },
    {
        match self.find(key) {
            Some(i) => {
                proof {
                    lemma_slot_in_map(self.listing(), i as int);
                    lemma_remove_slot(self.listing(), i as int);
                }
                let slot = self.slots.remove(i);
                Some(slot.value)
            },
            None => {
                assert(self@.remove(key) =~= self@);
                None
            },
        }
    }
}

} // verus!
