//! A verified model of the per-request metadata map: a store keyed by a
//! runtime type identity (an integer key) holding one erased value per key.
//! Insertion overwrites the entry for its key, so of two injections for the
//! same type the later one wins, while entries for distinct types coexist.

use vstd::prelude::*;

verus! {

/// The abstract contents of a sequence of recorded entries: later entries
/// overwrite earlier ones with the same key.
pub open spec fn entries_view<V>(s: Seq<(u64, V)>) -> Map<u64, V>
    decreases s.len(),
{
    if s.len() == 0 {
        Map::empty()
    } else {
        entries_view(s.drop_last()).insert(s.last().0, s.last().1)
    }
}

/// What a lookup of `key` in a map with contents `m` yields.
pub open spec fn lookup_model<V>(m: Map<u64, V>, key: u64) -> Option<V> {
    if m.contains_key(key) {
        Some(m[key])
    } else {
        None
    }
}

/// A type-keyed store: the request metadata map, modelled with integer
/// type identities as keys and one stored value per key.
pub struct TypeMap<V> {
    entries: Vec<(u64, V)>,
}

impl<V> View for TypeMap<V> {
    type V = Map<u64, V>;

    closed spec fn view(&self) -> Map<u64, V> {
        entries_view(self.entries@)
    }
}

/// The last entry of `s` with key `key`, if any.
pub open spec fn scan_back<V>(s: Seq<(u64, V)>, key: u64) -> Option<V>
    decreases s.len(),
{
    if s.len() == 0 {
        None
    } else if s.last().0 == key {
        Some(s.last().1)
    } else {
        scan_back(s.drop_last(), key)
    }
}

proof fn lemma_scan_back_is_lookup<V>(s: Seq<(u64, V)>, key: u64)
    ensures
        scan_back(s, key) == lookup_model(entries_view(s), key),
    decreases s.len(),
{
    if s.len() > 0 {
        lemma_scan_back_is_lookup(s.drop_last(), key);
    }
}

impl<V> TypeMap<V> {
    /// An empty store: no type has been registered.
    pub fn new() -> (r: Self)
        ensures
            r@ == Map::<u64, V>::empty(),
    {
        TypeMap { entries: Vec::new() }
    }

    /// Registers `value` under `key`, replacing whatever was stored for
    /// `key` before; entries for other keys are untouched.
    pub fn insert(&mut self, key: u64, value: V)
        ensures
            final(self)@ == old(self)@.insert(key, value),
    {
        self.entries.push((key, value));
        proof {
            assert(self.entries@.drop_last() =~= old(self).entries@);
        }
    }

    /// Looks up the value registered under `key`: the stored value if the
    /// key is present, and nothing if it never was registered.
    pub fn get(&self, key: u64) -> (r: Option<&V>)
        ensures
            match r {
                Some(v) => lookup_model(self@, key) == Some(*v),
                None => lookup_model(self@, key) is None,
            },
    {
        proof {
            lemma_scan_back_is_lookup(self.entries@, key);
            assert(self.entries@.take(self.entries@.len() as int) =~= self.entries@);
        }
        let n = self.entries.len();
        let mut i: usize = n;
        while i > 0
            invariant
                i <= n,
                n == self.entries@.len(),
                scan_back(self.entries@, key) == scan_back(self.entries@.take(i as int), key),
            decreases i,
        {
            i = i - 1;
            proof {
                assert(self.entries@.take(i as int + 1).drop_last() =~= self.entries@.take(
                    i as int,
                ));
                assert(self.entries@.take(i as int + 1).last() == self.entries@[i as int]);
            }
            let entry = &self.entries[i];
            if entry.0 == key {
                proof {
                    assert(scan_back(self.entries@.take(i as int + 1), key) == Some(
                        self.entries@[i as int].1,
                    ));
                    assert(scan_back(self.entries@, key) == scan_back(
                        self.entries@.take(i as int + 1),
                        key,
                    ));
                    lemma_scan_back_is_lookup(self.entries@, key);
                    assert(lookup_model(self@, key) == Some(self.entries@[i as int].1));
                }
                return Some(&self.entries[i].1);
            }
        }
        proof {
            assert(self.entries@.take(0) =~= Seq::<(u64, V)>::empty());
        }
        None
    }
}

/// Round trip: after a value is registered for a key, looking that key up
/// yields exactly that value, unchanged.
pub proof fn lemma_register_then_lookup<V>(m: Map<u64, V>, key: u64, value: V)
    ensures
        lookup_model(m.insert(key, value), key) == Some(value),
{
}

/// Of two registrations for the same key, the one applied later (closer to
/// the handler) wins: it shadows the earlier one.
pub proof fn lemma_same_key_shadows<V>(m: Map<u64, V>, key: u64, first: V, second: V)
    ensures
        lookup_model(m.insert(key, first).insert(key, second), key) == Some(second),
{
}

/// Registrations for distinct keys are independent: each key yields its own
/// value, and the order of the two registrations is irrelevant.
pub proof fn lemma_distinct_keys_coexist<V>(m: Map<u64, V>, k1: u64, k2: u64, v1: V, v2: V)
    requires
        k1 != k2,
    ensures
        lookup_model(m.insert(k1, v1).insert(k2, v2), k1) == Some(v1),
        lookup_model(m.insert(k1, v1).insert(k2, v2), k2) == Some(v2),
        m.insert(k1, v1).insert(k2, v2) == m.insert(k2, v2).insert(k1, v1),
{
    assert(m.insert(k1, v1).insert(k2, v2) =~= m.insert(k2, v2).insert(k1, v1));
}

} // verus!
