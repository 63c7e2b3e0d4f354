//! A small map keyed by text, kept as a list of entries in insertion
//! order. Its model is a `Map` from the key's characters to the value.

use crate::text::str_eq;
use vstd::prelude::*;

verus! {

/// A map from text to `V`, as a list of entries with distinct keys.
#[derive(Debug, Clone, Default)]
pub struct StringMap<V> {
    /// The entries, in the order in which their keys were first inserted.
    pub entries: Vec<(String, V)>,
}

/// The keys of a list of entries, in order.
pub open spec fn entry_keys<V>(entries: Seq<(String, V)>) -> Seq<Seq<char>> {
    entries.map_values(|e: (String, V)| e.0@)
}

/// A position at which `key` stands among `keys`.
pub open spec fn position_of(keys: Seq<Seq<char>>, key: Seq<char>) -> int {
    choose|i: int| 0 <= i < keys.len() && keys[i] == key
}

impl<V> StringMap<V> {
    /// The keys, in order.
    pub open spec fn keys(&self) -> Seq<Seq<char>> {
        entry_keys(self.entries@)
    }

    /// No key occurs twice.
    pub open spec fn wf(&self) -> bool {
        self.keys().no_duplicates()
    }

    /// The map that the entries stand for.
    pub open spec fn view(&self) -> Map<Seq<char>, V> {
        Map::new(
            |k: Seq<char>| self.keys().contains(k),
            |k: Seq<char>| self.entries@[position_of(self.keys(), k)].1,
        )
    }

    /// The value of the entry at position `i` is the value of its key.
    pub proof fn lemma_entry(&self, i: int)
        requires
            self.wf(),
            0 <= i < self.entries@.len(),
        ensures
            self@.contains_key(self.entries@[i].0@),
            self@[self.entries@[i].0@] == self.entries@[i].1,
    {
        let keys = self.keys();
        let k = self.entries@[i].0@;
        assert(keys[i] == k);
        let j = position_of(keys, k);
        assert(0 <= j < keys.len() && keys[j] == k);
    }

    /// The empty map.
    pub fn new() -> (m: Self)
        ensures
            m.wf(),
            m@ == Map::<Seq<char>, V>::empty(),
            m.entries@.len() == 0,
    {
        let m = StringMap { entries: Vec::new() };
        assert(m@ =~= Map::<Seq<char>, V>::empty());
        m
    }

    /// The number of entries.
    pub fn len(&self) -> (n: usize)
        ensures
            n == self.entries@.len(),
    {
        self.entries.len()
    }

    /// Whether the map has no entry.
    pub fn is_empty(&self) -> (b: bool)
        ensures
            b == (self.entries@.len() == 0),
    {
        self.entries.len() == 0
    }

    /// The position of `key` among the entries, if it has one.
    pub fn find(&self, key: &str) -> (r: Option<usize>)
        ensures
            match r {
                Some(i) => i < self.entries@.len() && self.entries@[i as int].0@ == key@,
                None => !self.keys().contains(key@),
            },
    {
        let mut i: usize = 0;
        while i < self.entries.len()
            invariant
                i <= self.entries.len(),
                forall|k: int| 0 <= k < i ==> self.keys()[k] != key@,
            decreases self.entries.len() - i,
        {
            if str_eq(self.entries[i].0.as_str(), key) {
                return Some(i);
            }
            i += 1;
        }
        None
    }

    /// Whether `key` has a value.
    pub fn contains_key(&self, key: &str) -> (b: bool)
        requires
            self.wf(),
        ensures
            b == self@.contains_key(key@),
    {
        match self.find(key) {
            Some(i) => {
                assert(self.keys()[i as int] == key@);
                true
            },
            None => false,
        }
    }

    /// The value of `key`, if it has one.
    pub fn get(&self, key: &str) -> (r: Option<&V>)
        requires
            self.wf(),
        ensures
            match r {
                Some(v) => self@.contains_key(key@) && self@[key@] == *v,
                None => !self@.contains_key(key@),
            },
    {
        match self.find(key) {
            Some(i) => {
                proof {
                    self.lemma_entry(i as int);
                }
                Some(&self.entries[i].1)
            },
            None => None,
        }
    }

    /// Gives `key` the value `value`: in place where the key has an
    /// entry, else in a new entry at the end.
    pub fn insert(&mut self, key: String, value: V)
        requires
            old(self).wf(),
        ensures
            final(self).wf(),
            final(self)@ == old(self)@.insert(key@, value),
    {
        let ghost before = *self;
        match self.find(key.as_str()) {
            Some(i) => {
                self.entries.set(i, (key, value));
                proof {
                    assert(self.keys() =~= before.keys());
                    assert forall|k: Seq<char>| self@.contains_key(k) implies #[trigger] self@[k]
                        == before@.insert(key@, value)[k] by {
                        let j = position_of(self.keys(), k);
                        assert(0 <= j < self.keys().len() && self.keys()[j] == k);
                        if k == key@ {
                            assert(self.keys()[i as int] == key@);
                            assert(j == i);
                        } else {
                            assert(j != i);
                        }
                    }
                    assert(before.keys()[i as int] == key@);
                    assert(self@.dom() =~= before@.insert(key@, value).dom());
                    assert(self@ =~= before@.insert(key@, value));
                }
            },
            None => {
                self.entries.push((key, value));
                proof {
                    let n = before.entries@.len() as int;
                    assert(self.keys() =~= before.keys().push(key@));
                    assert forall|k: Seq<char>| self.keys().contains(k) <==> (before.keys().contains(
                        k,
                    ) || k == key@) by {
                        if before.keys().contains(k) {
                            let j = before.keys().index_of(k);
                            assert(self.keys()[j] == k);
                        }
                        if k == key@ {
                            assert(self.keys()[n] == k);
                        }
                        if self.keys().contains(k) && k != key@ {
                            let j = self.keys().index_of(k);
                            assert(before.keys()[j] == k);
                        }
                    }
                    assert(self@.dom() =~= before@.insert(key@, value).dom());
                    assert forall|k: Seq<char>| self@.contains_key(k) implies #[trigger] self@[k]
                        == before@.insert(key@, value)[k] by {
                        let j = position_of(self.keys(), k);
                        assert(0 <= j < self.keys().len() && self.keys()[j] == k);
                        if k == key@ {
                            assert(self.keys()[n] == key@);
                            assert(j == n);
                        } else {
                            assert(j < n);
                            let j2 = position_of(before.keys(), k);
                            assert(before.keys()[j] == k);
                            assert(0 <= j2 < before.keys().len() && before.keys()[j2] == k);
                            assert(j2 == j);
                        }
                    }
                    assert(self@ =~= before@.insert(key@, value));
                }
            },
        }
    }

    /// Takes the entry of `key` out of the map and gives its value, if
    /// the key has one.
    pub fn remove(&mut self, key: &str) -> (r: Option<V>)
        requires
            old(self).wf(),
        ensures
            final(self).wf(),
            final(self)@ == old(self)@.remove(key@),
            match r {
                Some(v) => old(self)@.contains_key(key@) && old(self)@[key@] == v,
                None => !old(self)@.contains_key(key@),
            },
    {
        let ghost before = *self;
        match self.find(key) {
            Some(i) => {
                proof {
                    before.lemma_entry(i as int);
                }
                let entry = self.entries.remove(i);
                proof {
                    let n = i as int;
                    assert(self.keys() =~= before.keys().remove(n));
                    assert forall|a: int, b: int|
                        0 <= a < self.keys().len() && 0 <= b < self.keys().len() && a
                            != b implies self.keys()[a] != self.keys()[b] by {
                        let a2 = if a < n {
                            a
                        } else {
                            a + 1
                        };
                        let b2 = if b < n {
                            b
                        } else {
                            b + 1
                        };
                        assert(self.keys()[a] == before.keys()[a2]);
                        assert(self.keys()[b] == before.keys()[b2]);
                    }
                    assert forall|k: Seq<char>| self.keys().contains(k) <==> (before.keys().contains(
                        k,
                    ) && k != key@) by {
                        if self.keys().contains(k) {
                            let j = self.keys().index_of(k);
                            let j2 = if j < n {
                                j
                            } else {
                                j + 1
                            };
                            assert(before.keys()[j2] == k);
                            assert(j2 != n);
                            assert(before.keys()[n] == key@);
                            assert(before.keys().contains(k));
                            assert(k != key@);
                        }
                        if before.keys().contains(k) && k != key@ {
                            let j = before.keys().index_of(k);
                            assert(j != n);
                            let j2 = if j < n {
                                j
                            } else {
                                j - 1
                            };
                            assert(self.keys()[j2] == k);
                            assert(self.keys().contains(k));
                        }
                    }
                    assert(self@.dom() =~= before@.remove(key@).dom());
                    assert forall|k: Seq<char>| self@.contains_key(k) implies #[trigger] self@[k]
                        == before@.remove(key@)[k] by {
                        let j = position_of(self.keys(), k);
                        assert(0 <= j < self.keys().len() && self.keys()[j] == k);
                        let j2 = if j < n {
                            j
                        } else {
                            j + 1
                        };
                        assert(before.keys()[j2] == k);
                        let j3 = position_of(before.keys(), k);
                        assert(0 <= j3 < before.keys().len() && before.keys()[j3] == k);
                        assert(j3 == j2);
                        assert(self.entries@[j] == before.entries@[j2]);
                    }
                    assert(self@ =~= before@.remove(key@));
                }
                Some(entry.1)
            },
            None => {
                proof {
                    assert(self@ =~= before@.remove(key@));
                }
                None
            },
        }
    }
}

/// The model of a map from text to text.
pub open spec fn text_map(m: StringMap<String>) -> Map<Seq<char>, Seq<char>> {
    m@.map_values(|v: String| v@)
}

/// A copy of a map from text to text, entry by entry.
pub fn copy_text_map(m: &StringMap<String>) -> (r: StringMap<String>)
    requires
        m.wf(),
    ensures
        r.wf(),
        r.keys() == m.keys(),
        text_map(r) == text_map(*m),
{
    let mut entries: Vec<(String, String)> = Vec::new();
    let mut i: usize = 0;
    while i < m.entries.len()
        invariant
            i <= m.entries.len(),
            entries@.len() == i,
            forall|k: int| 0 <= k < i ==> (#[trigger] entries@[k]).0@ == m.entries@[k].0@,
            forall|k: int| 0 <= k < i ==> (#[trigger] entries@[k]).1@ == m.entries@[k].1@,
        decreases m.entries.len() - i,
    {
        entries.push((m.entries[i].0.clone(), m.entries[i].1.clone()));
        i += 1;
    }
    let r = StringMap { entries };
    proof {
        assert(r.keys() =~= m.keys());
        assert forall|k: Seq<char>| r@.contains_key(k) implies (#[trigger] r@[k])@ == m@[k]@ by {
            let j = position_of(r.keys(), k);
            assert(0 <= j < r.keys().len() && r.keys()[j] == k);
        }
        assert(text_map(r) =~= text_map(*m));
    }
    r
}

/// Gives `key` the text `value` in a map from text to text.
pub fn insert_text(m: &mut StringMap<String>, key: &str, value: String)
    requires
        old(m).wf(),
    ensures
        final(m).wf(),
        text_map(*final(m)) == text_map(*old(m)).insert(key@, value@),
{
    m.insert(key.to_owned(), value);
    proof {
        assert(text_map(*m) =~= text_map(*old(m)).insert(key@, value@));
    }
}

/// The text of `key` in a map from text to text, if it has one.
pub fn get_text<'a>(m: &'a StringMap<String>, key: &str) -> (r: Option<&'a String>)
    requires
        m.wf(),
    ensures
        match r {
            Some(v) => text_map(*m).contains_key(key@) && text_map(*m)[key@] == v@,
            None => !text_map(*m).contains_key(key@),
        },
{
    m.get(key)
}

} // verus!
