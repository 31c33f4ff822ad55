//! A small map: a list of entries in which no key occurs twice.

use vstd::prelude::*;

verus! {

/// A type that can be the key of a [`Table`].
pub trait TableKey: Sized {
    /// What two keys are compared by.
    type Key;

    /// The part of a key that tells it from others.
    spec fn key(&self) -> Self::Key;

    /// Whether two keys are the same.
    fn same_key(&self, other: &Self) -> (r: bool)
        ensures
            r == (self.key() == other.key()),
    ;
}

impl TableKey for String {
    type Key = Seq<char>;

    open spec fn key(&self) -> Seq<char> {
        self@
    }

    fn same_key(&self, other: &Self) -> (r: bool) {
        *self == *other
    }
}

/// Whether no key occurs twice.
spec fn distinct_keys<K: TableKey, V>(entries: Seq<(K, V)>) -> bool {
    forall|i: int, j: int|
        0 <= i < j < entries.len() ==> (#[trigger] entries[i]).0.key() != (
        #[trigger] entries[j]).0.key()
}

/// The map that a list of entries stands for.
spec fn entries_map<K: TableKey, V: View>(entries: Seq<(K, V)>) -> Map<K::Key, V::V>
    decreases entries.len(),
{
    if entries.len() == 0 {
        Map::empty()
    } else {
        entries_map(entries.drop_last()).insert(entries.last().0.key(), entries.last().1@)
    }
}

/// A map from keys to values.
#[derive(Debug)]
pub struct Table<K: TableKey, V: View> {
    entries: Vec<(K, V)>,
}

impl<K: TableKey, V: View> View for Table<K, V> {
    type V = Map<K::Key, V::V>;

    closed spec fn view(&self) -> Map<K::Key, V::V> {
        entries_map(self.entries@)
    }
}

proof fn lemma_entries_map<K: TableKey, V: View>(entries: Seq<(K, V)>)
    requires
        distinct_keys(entries),
    ensures
        entries_map(entries).dom().finite(),
        entries_map(entries).len() == entries.len(),
        forall|i: int|
            0 <= i < entries.len() ==> entries_map(entries).contains_key(
                (#[trigger] entries[i]).0.key(),
            ) && entries_map(entries)[entries[i].0.key()] == entries[i].1@,
        forall|k: K::Key|
            entries_map(entries).contains_key(k) ==> exists|i: int|
                0 <= i < entries.len() && (#[trigger] entries[i]).0.key() == k,
    decreases entries.len(),
{
    if entries.len() > 0 {
        let rest = entries.drop_last();
        assert forall|i: int, j: int| 0 <= i < j < rest.len() implies (
        #[trigger] rest[i]).0.key() != (#[trigger] rest[j]).0.key() by {
            assert(rest[i] == entries[i] && rest[j] == entries[j]);
        }
        lemma_entries_map(rest);
        let last = entries.last().0.key();
        assert(!entries_map(rest).contains_key(last)) by {
            if entries_map(rest).contains_key(last) {
                let i = choose|i: int| 0 <= i < rest.len() && (#[trigger] rest[i]).0.key() == last;
                assert(entries[i].0.key() == entries[entries.len() - 1].0.key());
            }
        }
        assert forall|i: int| 0 <= i < entries.len() implies entries_map(entries).contains_key(
            (#[trigger] entries[i]).0.key(),
        ) && entries_map(entries)[entries[i].0.key()] == entries[i].1@ by {
            if i < rest.len() {
                assert(rest[i] == entries[i]);
                assert(entries[i].0.key() != entries[entries.len() - 1].0.key());
            }
        }
        assert forall|k: K::Key| entries_map(entries).contains_key(k) implies exists|i: int|
            0 <= i < entries.len() && (#[trigger] entries[i]).0.key() == k by {
            if k == last {
                assert(entries[entries.len() - 1].0.key() == k);
            } else {
                let i = choose|i: int| 0 <= i < rest.len() && (#[trigger] rest[i]).0.key() == k;
                assert(entries[i].0.key() == k);
            }
        }
    }
}

impl<K: TableKey, V: View> Table<K, V> {
    #[verifier::type_invariant]
    spec fn well_formed(self) -> bool {
        distinct_keys(self.entries@)
    }

    /// The empty map.
    pub fn new() -> (r: Self)
        ensures
            r@ == Map::<K::Key, V::V>::empty(),
    {
        Table { entries: Vec::new() }
    }

    /// Where a key stands, or the number of entries where it does not occur.
    fn position(&self, key: &K) -> (r: usize)
        ensures
            r <= self.entries@.len(),
            r < self.entries@.len() ==> self.entries@[r as int].0.key() == key.key(),
            r == self.entries@.len() ==> forall|i: int|
                0 <= i < self.entries@.len() ==> (#[trigger] self.entries@[i]).0.key() != key.key(),
    {
        let n: usize = self.entries.len();
        let mut i: usize = 0;
        while i < n
            invariant
                i <= n,
                n == self.entries@.len(),
                forall|j: int| 0 <= j < i ==> (#[trigger] self.entries@[j]).0.key() != key.key(),
            decreases n - i,
        {
            if self.entries[i].0.same_key(key) {
                return i;
            }
            i = i + 1;
        }
        n
    }

    /// The number of entries.
    pub fn len(&self) -> (r: usize)
        ensures
            r == self@.len(),
            self@.dom().finite(),
    {
        proof {
            use_type_invariant(self);
            lemma_entries_map(self.entries@);
        }
        self.entries.len()
    }

    /// The value under a key.
    pub fn get(&self, key: &K) -> (r: Option<&V>)
        ensures
            match r {
                Some(v) => self@.contains_key(key.key()) && v@ == self@[key.key()],
                None => !self@.contains_key(key.key()),
            },
    {
        proof {
            use_type_invariant(self);
            lemma_entries_map(self.entries@);
        }
        let i: usize = self.position(key);
        if i < self.entries.len() {
            Some(&self.entries[i].1)
        } else {
            None
        }
    }

    /// Puts a value under a key, in place of one that stood there.
    pub fn insert(&mut self, key: K, value: V)
        ensures
            final(self)@ == old(self)@.insert(key.key(), value@),
    {
        self.remove(&key);
        proof {
            use_type_invariant(&*self);
            lemma_entries_map(self.entries@);
        }
        let ghost before = self.entries@;
        let mut entries: Vec<(K, V)> = Vec::new();
        core::mem::swap(&mut entries, &mut self.entries);
        entries.push((key, value));
        proof {
            assert(entries@.drop_last() =~= before);
            assert forall|i: int, j: int| 0 <= i < j < entries@.len() implies (
            #[trigger] entries@[i]).0.key() != (#[trigger] entries@[j]).0.key() by {
                if j == before.len() {
                    assert(entries_map(before).contains_key(before[i].0.key()));
                }
            }
        }
        self.entries = entries;
        assert(self@ =~= old(self)@.insert(key.key(), value@));
    }

    /// Takes a key and its value out, where it occurs.
    pub fn remove(&mut self, key: &K)
        ensures
            final(self)@ == old(self)@.remove(key.key()),
    {
        proof {
            use_type_invariant(&*self);
            lemma_entries_map(self.entries@);
        }
        let ghost before = self.entries@;
        let i: usize = self.position(key);
        if i < self.entries.len() {
            let mut entries: Vec<(K, V)> = Vec::new();
            core::mem::swap(&mut entries, &mut self.entries);
            entries.remove(i);
            proof {
                assert forall|a: int, b: int| 0 <= a < b < entries@.len() implies (
                #[trigger] entries@[a]).0.key() != (#[trigger] entries@[b]).0.key() by {
                    let a0 = if a < i { a } else { a + 1 };
                    let b0 = if b < i { b } else { b + 1 };
                    assert(entries@[a] == before[a0] && entries@[b] == before[b0]);
                }
                lemma_entries_map(entries@);
                assert forall|k: K::Key| entries_map(entries@).contains_key(k) <==> entries_map(
                    before,
                ).remove(key.key()).contains_key(k) by {
                    if entries_map(entries@).contains_key(k) {
                        let a = choose|a: int|
                            0 <= a < entries@.len() && (#[trigger] entries@[a]).0.key() == k;
                        let a0 = if a < i { a } else { a + 1 };
                        assert(entries@[a] == before[a0]);
                    }
                    if entries_map(before).remove(key.key()).contains_key(k) {
                        let b = choose|b: int|
                            0 <= b < before.len() && (#[trigger] before[b]).0.key() == k;
                        let b0 = if b < i { b } else { b - 1 };
                        assert(entries@[b0] == before[b]);
                    }
                }
                assert forall|k: K::Key| entries_map(entries@).contains_key(k) implies entries_map(
                    entries@,
                )[k] == entries_map(before).remove(key.key())[k] by {
                    let a = choose|a: int|
                        0 <= a < entries@.len() && (#[trigger] entries@[a]).0.key() == k;
                    let a0 = if a < i { a } else { a + 1 };
                    assert(entries@[a] == before[a0]);
                }
                assert(entries_map(entries@) =~= entries_map(before).remove(key.key()));
            }
            self.entries = entries;
        } else {
            assert(self@ =~= old(self)@.remove(key.key()));
        }
    }
}

impl Table<String, String> {
    /// Whether every entry of this map stands in the other one too.
    fn included(&self, other: &Self) -> (r: bool)
        ensures
            r == (forall|k: Seq<char>| #[trigger]
                self@.contains_key(k) ==> other@.contains_key(k) && other@[k] == self@[k]),
    {
        proof {
            use_type_invariant(self);
            lemma_entries_map(self.entries@);
        }
        let n: usize = self.entries.len();
        let mut i: usize = 0;
        while i < n
            invariant
                i <= n,
                n == self.entries@.len(),
                forall|j: int|
                    0 <= j < n ==> self@.contains_key((#[trigger] self.entries@[j]).0@)
                        && self@[self.entries@[j].0@] == self.entries@[j].1@,
                forall|j: int|
                    0 <= j < i ==> other@.contains_key((#[trigger] self.entries@[j]).0@)
                        && other@[self.entries@[j].0@] == self.entries@[j].1@,
            decreases n - i,
        {
            let found = other.get(&self.entries[i].0);
            match found {
                Some(v) => {
                    if *v != self.entries[i].1 {
                        assert(self@.contains_key(self.entries@[i as int].0@));
                        return false;
                    }
                },
                None => {
                    assert(self@.contains_key(self.entries@[i as int].0@));
                    return false;
                },
            }
            i = i + 1;
        }
        proof {
            assert forall|k: Seq<char>| #[trigger] self@.contains_key(k) implies other@.contains_key(k)
                && other@[k] == self@[k] by {
                let j = choose|j: int|
                    0 <= j < self.entries@.len() && (#[trigger] self.entries@[j]).0.key() == k;
                assert(other@.contains_key(self.entries@[j].0@));
            }
        }
        true
    }
}

impl PartialEq for Table<String, String> {
    fn eq(&self, other: &Self) -> (r: bool) {
        let r: bool = self.included(other) && other.included(self);
        proof {
            if r {
                assert(self@ =~= other@);
            }
        }
        r
    }
}

impl vstd::std_specs::cmp::PartialEqSpecImpl for Table<String, String> {
    open spec fn obeys_eq_spec() -> bool {
        true
    }

    open spec fn eq_spec(&self, other: &Self) -> bool {
        self@ == other@
    }
}

impl Clone for Table<String, String> {
    fn clone(&self) -> (r: Self)
        ensures
            r@ == self@,
    {
        proof {
            use_type_invariant(self);
        }
        let n: usize = self.entries.len();
        let mut entries: Vec<(String, String)> = Vec::new();
        let mut i: usize = 0;
        while i < n
            invariant
                i <= n,
                n == self.entries@.len(),
                entries@ == self.entries@.take(i as int),
            decreases n - i,
        {
            entries.push((self.entries[i].0.clone(), self.entries[i].1.clone()));
            i = i + 1;
            assert(entries@ =~= self.entries@.take(i as int));
        }
        assert(entries@ =~= self.entries@);
        Table { entries }
    }
}

} // verus!
