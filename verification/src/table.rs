//! A map from strings to values that keeps the order in which its keys came.
use vstd::prelude::*;

use crate::text::same_text;

verus! {

/// A map from strings to values. Each key stands in it at most once.
#[derive(Debug)]
pub struct StringTable<V> {
    entries: Vec<(String, V)>,
}

/// Whether no key stands twice in the entries.
pub closed spec fn distinct_keys<V>(entries: Seq<(String, V)>) -> bool {
    forall|i: int, j: int|
        #![trigger entries[i], entries[j]]
        0 <= i < j < entries.len() ==> entries[i].0@ != entries[j].0@
}

/// Whether some entry has the key.
spec fn has_key<V>(entries: Seq<(String, V)>, k: Seq<char>) -> bool {
    exists|i: int| #![trigger entries[i]] 0 <= i < entries.len() && entries[i].0@ == k
}

/// The position of the entry that has the key.
spec fn position<V>(entries: Seq<(String, V)>, k: Seq<char>) -> int {
    choose|i: int| #![trigger entries[i]] 0 <= i < entries.len() && entries[i].0@ == k
}

/// The entries as a map.
spec fn as_map<V>(entries: Seq<(String, V)>) -> Map<Seq<char>, V> {
    Map::new(|k: Seq<char>| has_key(entries, k), |k: Seq<char>| entries[position(entries, k)].1)
}

/// An entry of a table with distinct keys is what the map holds for its key.
proof fn lemma_entry<V>(entries: Seq<(String, V)>, i: int)
    requires
        distinct_keys(entries),
        0 <= i < entries.len(),
    ensures
        has_key(entries, entries[i].0@),
        position(entries, entries[i].0@) == i,
        as_map(entries).contains_key(entries[i].0@),
        as_map(entries)[entries[i].0@] == entries[i].1,
{
    let p = position(entries, entries[i].0@);
    assert(0 <= p < entries.len() && entries[p].0@ == entries[i].0@);
    if p < i {
        assert(entries[p].0@ != entries[i].0@);
    }
    if i < p {
        assert(entries[i].0@ != entries[p].0@);
    }
}

/// A key that the map holds has its entry at its position.
proof fn lemma_position<V>(entries: Seq<(String, V)>, k: Seq<char>)
    requires
        has_key(entries, k),
    ensures
        0 <= position(entries, k) < entries.len(),
        entries[position(entries, k)].0@ == k,
{
}

impl<V> View for StringTable<V> {
    type V = Map<Seq<char>, V>;

    closed spec fn view(&self) -> Map<Seq<char>, V> {
        as_map(self.entries@)
    }
}

impl<V> StringTable<V> {
    #[verifier::type_invariant]
    spec fn well_formed(self) -> bool {
        distinct_keys(self.entries@)
    }

    /// The keys in the order in which they came.
    pub closed spec fn key_order(&self) -> Seq<Seq<char>> {
        Seq::new(self.entries@.len(), |i: int| self.entries@[i].0@)
    }

    /// A table without entries.
    pub fn new() -> (t: Self)
        ensures
            t@ == Map::<Seq<char>, V>::empty(),
            t.key_order() == Seq::<Seq<char>>::empty(),
    {
        let t = StringTable { entries: Vec::new() };
        assert(as_map(t.entries@) =~= Map::<Seq<char>, V>::empty());
        assert(t.key_order() =~= Seq::<Seq<char>>::empty());
        t
    }

    /// The position of a key, or the number of entries where the key is absent.
    fn find(&self, k: &str) -> (i: usize)
        ensures
            i <= self.entries@.len(),
            i < self.entries@.len() <==> self@.contains_key(k@),
            i < self.entries@.len() ==> self.entries@[i as int].0@ == k@ && self@[k@]
                == self.entries@[i as int].1,
    {
        proof {
            use_type_invariant(self);
        }
        let mut i: usize = 0;
        while i < self.entries.len()
            invariant
                i <= self.entries@.len(),
                distinct_keys(self.entries@),
                forall|j: int| 0 <= j < i ==> (#[trigger] self.entries@[j]).0@ != k@,
            decreases self.entries@.len() - i,
        {
            if same_text(self.entries[i].0.as_str(), k) {
                proof {
                    lemma_entry(self.entries@, i as int);
                }
                return i;
            }
            i += 1;
        }
        i
    }

    /// Whether the table holds the key.
    pub fn contains_key(&self, k: &str) -> (r: bool)
        ensures
            r == self@.contains_key(k@),
    {
        self.find(k) < self.entries.len()
    }

    /// Whether the table holds no key.
    pub fn is_empty(&self) -> (r: bool)
        ensures
            r == (self@ == Map::<Seq<char>, V>::empty()),
            r == (self.key_order().len() == 0),
    {
        proof {
            use_type_invariant(self);
            if self.entries@.len() == 0 {
                assert(self@ =~= Map::<Seq<char>, V>::empty());
            } else {
                lemma_entry(self.entries@, 0);
                assert(self@.contains_key(self.entries@[0].0@));
            }
        }
        self.entries.len() == 0
    }

    /// The value of a key.
    pub fn get(&self, k: &str) -> (r: Option<&V>)
        ensures
            match r {
                Some(v) => self@.contains_key(k@) && *v == self@[k@],
                None => !self@.contains_key(k@),
            },
    {
        let i = self.find(k);
        if i < self.entries.len() {
            Some(&self.entries[i].1)
        } else {
            None
        }
    }

    /// Sets the value of a key. A new key comes last; a key that is there keeps its place.
    pub fn insert(&mut self, k: String, v: V)
        ensures
            final(self)@ == old(self)@.insert(k@, v),
            final(self).key_order() == if old(self)@.contains_key(k@) {
                old(self).key_order()
            } else {
                old(self).key_order().push(k@)
            },
    {
        proof {
            use_type_invariant(&*self);
        }
        let ghost before = self.entries@;
        let i = self.find(k.as_str());
        let mut entries: Vec<(String, V)> = Vec::new();
        std::mem::swap(&mut entries, &mut self.entries);
        if i < entries.len() {
            let ghost key = entries@[i as int].0@;
            let _ = entries.remove(i);
            entries.insert(i, (k, v));
            assert(entries@ =~= before.update(i as int, (k, v)));
            proof {
                lemma_replace(before, i as int, (k, v));
            }
        } else {
            entries.push((k, v));
            proof {
                lemma_append(before, (k, v));
            }
        }
        self.entries = entries;
        assert(final(self).key_order() =~= if old(self)@.contains_key(k@) {
            old(self).key_order()
        } else {
            old(self).key_order().push(k@)
        });
    }

    /// Takes a key out and gives its value.
    pub fn remove(&mut self, k: &str) -> (r: Option<V>)
        ensures
            final(self)@ == old(self)@.remove(k@),
            match r {
                Some(v) => old(self)@.contains_key(k@) && v == old(self)@[k@],
                None => !old(self)@.contains_key(k@),
            },
    {
        proof {
            use_type_invariant(&*self);
        }
        let ghost before = self.entries@;
        let i = self.find(k);
        let mut entries: Vec<(String, V)> = Vec::new();
        std::mem::swap(&mut entries, &mut self.entries);
        let mut out: Option<V> = None;
        if i < entries.len() {
            proof {
                lemma_remove(before, i as int);
            }
            let (_, v) = entries.remove(i);
            out = Some(v);
        } else {
            assert(as_map(before).remove(k@) =~= as_map(before));
        }
        self.entries = entries;
        out
    }

    /// The keys in the order in which they came.
    pub fn keys(&self) -> (r: Vec<String>)
        ensures
            crate::text::texts(r@) == self.key_order(),
            forall|k: Seq<char>| self@.contains_key(k) <==> self.key_order().contains(k),
            self.key_order().no_duplicates(),
    {
        proof {
            use_type_invariant(self);
            assert forall|k: Seq<char>| self@.contains_key(k) implies self.key_order().contains(
                k,
            ) by {
                lemma_position(self.entries@, k);
                assert(self.key_order()[position(self.entries@, k)] == k);
            }
            assert forall|k: Seq<char>| self.key_order().contains(k) implies self@.contains_key(
                k,
            ) by {
                let i = choose|i: int| 0 <= i < self.key_order().len() && self.key_order()[i] == k;
                lemma_entry(self.entries@, i);
            }
            assert forall|i: int, j: int|
                0 <= i < self.key_order().len() && 0 <= j < self.key_order().len() && i
                    != j implies self.key_order()[i] != self.key_order()[j] by {
                if i < j {
                    assert(self.entries@[i].0@ != self.entries@[j].0@);
                } else {
                    assert(self.entries@[j].0@ != self.entries@[i].0@);
                }
            }
        }
        let mut out: Vec<String> = Vec::new();
        let mut i: usize = 0;
        while i < self.entries.len()
            invariant
                i <= self.entries@.len(),
                out.len() == i,
                forall|j: int| 0 <= j < i ==> out@[j]@ == self.entries@[j].0@,
            decreases self.entries@.len() - i,
        {
            out.push(self.entries[i].0.clone());
            i += 1;
        }
        assert(crate::text::texts(out@) =~= self.key_order());
        out
    }
}

impl<V: Clone> Clone for StringTable<V> {
    fn clone(&self) -> (r: Self)
        ensures
            r@.dom() == self@.dom(),
            forall|k: Seq<char>| #[trigger]
                self@.contains_key(k) ==> cloned::<V>(self@[k], r@[k]),
            r.key_order() == self.key_order(),
    {
        proof {
            use_type_invariant(self);
        }
        let mut entries: Vec<(String, V)> = Vec::new();
        let mut i: usize = 0;
        while i < self.entries.len()
            invariant
                i <= self.entries@.len(),
                entries@.len() == i,
                forall|j: int|
                    #![trigger entries@[j]]
                    0 <= j < i ==> entries@[j].0@ == self.entries@[j].0@ && cloned::<V>(
                        self.entries@[j].1,
                        entries@[j].1,
                    ),
            decreases self.entries@.len() - i,
        {
            entries.push((self.entries[i].0.clone(), self.entries[i].1.clone()));
            i += 1;
        }
        proof {
            assert(distinct_keys(entries@)) by {
                assert forall|a: int, b: int|
                    #![trigger entries@[a], entries@[b]]
                    0 <= a < b < entries@.len() implies entries@[a].0@ != entries@[b].0@ by {
                    assert(self.entries@[a].0@ != self.entries@[b].0@);
                }
            }
            assert forall|k: Seq<char>| has_key(self.entries@, k) == has_key(entries@, k) by {
                if has_key(self.entries@, k) {
                    lemma_position(self.entries@, k);
                    assert(entries@[position(self.entries@, k)].0@ == k);
                }
                if has_key(entries@, k) {
                    lemma_position(entries@, k);
                    assert(self.entries@[position(entries@, k)].0@ == k);
                }
            }
            assert forall|k: Seq<char>| #[trigger] self@.contains_key(k) implies cloned::<V>(
                self@[k],
                as_map(entries@)[k],
            ) by {
                lemma_position(self.entries@, k);
                let p = position(self.entries@, k);
                lemma_entry(entries@, p);
                lemma_entry(self.entries@, p);
            }
        }
        let r = StringTable { entries };
        assert(r@.dom() =~= self@.dom());
        assert(r.key_order() =~= self.key_order());
        r
    }
}

/// Replacing an entry under its own key updates that key of the map.
proof fn lemma_replace<V>(entries: Seq<(String, V)>, i: int, e: (String, V))
    requires
        distinct_keys(entries),
        0 <= i < entries.len(),
        entries[i].0@ == e.0@,
    ensures
        distinct_keys(entries.update(i, e)),
        as_map(entries.update(i, e)) == as_map(entries).insert(e.0@, e.1),
{
    let after = entries.update(i, e);
    assert(distinct_keys(after)) by {
        assert forall|a: int, b: int|
            #![trigger after[a], after[b]]
            0 <= a < b < after.len() implies after[a].0@ != after[b].0@ by {
            assert(after[a].0@ == entries[a].0@);
            assert(after[b].0@ == entries[b].0@);
        }
    }
    assert forall|k: Seq<char>| has_key(after, k) == has_key(entries, k) by {
        if has_key(after, k) {
            lemma_position(after, k);
            assert(entries[position(after, k)].0@ == k);
        }
        if has_key(entries, k) {
            lemma_position(entries, k);
            assert(after[position(entries, k)].0@ == k);
        }
    }
    lemma_entry(after, i);
    assert forall|k: Seq<char>| has_key(after, k) && k != e.0@ implies as_map(after)[k] == as_map(
        entries,
    )[k] by {
        lemma_position(after, k);
        let p = position(after, k);
        lemma_entry(entries, p);
        assert(entries[p] == after[p]);
    }
    lemma_entry(entries, i);
    assert(as_map(after) =~= as_map(entries).insert(e.0@, e.1));
}

/// Appending an entry under a new key adds that key to the map.
proof fn lemma_append<V>(entries: Seq<(String, V)>, e: (String, V))
    requires
        distinct_keys(entries),
        !has_key(entries, e.0@),
    ensures
        distinct_keys(entries.push(e)),
        as_map(entries.push(e)) == as_map(entries).insert(e.0@, e.1),
{
    let after = entries.push(e);
    let n = entries.len() as int;
    assert(distinct_keys(after)) by {
        assert forall|a: int, b: int|
            #![trigger after[a], after[b]]
            0 <= a < b < after.len() implies after[a].0@ != after[b].0@ by {
            assert(after[a] == entries[a]);
            if b < n {
                assert(after[b] == entries[b]);
            }
        }
    }
    lemma_entry(after, n);
    assert forall|k: Seq<char>| has_key(entries, k) implies has_key(after, k) && as_map(after)[k]
        == as_map(entries)[k] by {
        lemma_position(entries, k);
        let p = position(entries, k);
        assert(after[p] == entries[p]);
        lemma_entry(after, p);
    }
    assert forall|k: Seq<char>| has_key(after, k) && k != e.0@ implies has_key(entries, k) by {
        lemma_position(after, k);
        assert(entries[position(after, k)].0@ == k);
    }
    assert(as_map(after) =~= as_map(entries).insert(e.0@, e.1));
}

/// Taking an entry out takes its key out of the map.
proof fn lemma_remove<V>(entries: Seq<(String, V)>, i: int)
    requires
        distinct_keys(entries),
        0 <= i < entries.len(),
    ensures
        distinct_keys(entries.remove(i)),
        as_map(entries.remove(i)) == as_map(entries).remove(entries[i].0@),
{
    let after = entries.remove(i);
    let gone = entries[i].0@;
    assert forall|a: int| 0 <= a < after.len() implies after[a] == entries[if a < i {
        a
    } else {
        a + 1
    }] by {}
    assert(distinct_keys(after)) by {
        assert forall|a: int, b: int|
            #![trigger after[a], after[b]]
            0 <= a < b < after.len() implies after[a].0@ != after[b].0@ by {
            assert(entries[if a < i { a } else { a + 1 }].0@ != entries[if b < i {
                b
            } else {
                b + 1
            }].0@);
        }
    }
    assert forall|k: Seq<char>| has_key(after, k) implies k != gone && has_key(entries, k)
        && as_map(after)[k] == as_map(entries)[k] by {
        lemma_position(after, k);
        let p = position(after, k);
        let q = if p < i { p } else { p + 1 };
        lemma_entry(entries, q);
        lemma_entry(entries, i);
    }
    assert forall|k: Seq<char>| has_key(entries, k) && k != gone implies has_key(after, k) by {
        lemma_position(entries, k);
        let q = position(entries, k);
        let p = if q < i { q } else { q - 1 };
        assert(after[p].0@ == k);
    }
    assert(as_map(after) =~= as_map(entries).remove(gone));
}

} // verus!
