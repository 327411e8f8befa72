//! A finite map keyed by text, kept as a list of entries in insertion order.

use vstd::prelude::*;

verus! {

/// The keys of a list of entries, in order, each as the text it holds.
pub open spec fn entry_names<V>(entries: Seq<(String, V)>) -> Seq<Seq<char>> {
    entries.map_values(|e: (String, V)| e.0@)
}

/// In a list whose keys are pairwise distinct, a key is found at its own position.
proof fn lemma_position_of_name<V>(entries: Seq<(String, V)>, i: int)
    requires
        entry_names(entries).no_duplicates(),
        0 <= i < entries.len(),
    ensures
        entry_names(entries).contains(entry_names(entries)[i]),
        entry_names(entries).index_of(entry_names(entries)[i]) == i,
{
    let names = entry_names(entries);
    assert(names.contains(names[i]));
    let j = names.index_of(names[i]);
    assert(0 <= j < names.len() && names[j] == names[i]);
}

/// Whether `k` is one of the first `i + 1` items of a list is told by the
/// first `i` items and item `i`.
pub proof fn lemma_take_one_more<A>(items: Seq<A>, i: int, k: A)
    requires
        0 <= i < items.len(),
    ensures
        items.take(i + 1).contains(k) <==> (items.take(i).contains(k) || k == items[i]),
{
    if items.take(i).contains(k) {
        let j = items.take(i).index_of(k);
        assert(0 <= j < i && items.take(i)[j] == k);
        assert(items.take(i + 1)[j] == k);
    }
    if k == items[i] {
        assert(items.take(i + 1)[i] == k);
    }
    if items.take(i + 1).contains(k) {
        let j = items.take(i + 1).index_of(k);
        assert(0 <= j < i + 1 && items.take(i + 1)[j] == k);
        if j < i {
            assert(items.take(i)[j] == k);
        }
    }
}

/// The map that a list of entries with pairwise distinct keys stands for.
spec fn entries_map<V>(entries: Seq<(String, V)>) -> Map<Seq<char>, V> {
    Map::new(
        |k: Seq<char>| entry_names(entries).contains(k),
        |k: Seq<char>| entries[entry_names(entries).index_of(k)].1,
    )
}

/// Replacing the entry at a key's position stores the new value under that key.
proof fn lemma_replace_entry<V>(before: Seq<(String, V)>, i: int, key: String, value: V)
    requires
        entry_names(before).no_duplicates(),
        0 <= i < before.len(),
        entry_names(before)[i] == key@,
    ensures
        entry_names(before.update(i, (key, value))) == entry_names(before),
        entries_map(before.update(i, (key, value))) == entries_map(before).insert(key@, value),
{
    let after = before.update(i, (key, value));
    assert(entry_names(after) =~= entry_names(before));
    lemma_position_of_name(before, i);
    assert forall|n: Seq<char>| entry_names(before).contains(n) implies #[trigger] entries_map(
        after,
    )[n] == entries_map(before).insert(key@, value)[n] by {
        let j = entry_names(before).index_of(n);
        assert(0 <= j < before.len() && entry_names(before)[j] == n);
    }
    assert(entries_map(after) =~= entries_map(before).insert(key@, value));
}

/// Appending an entry under a new key stores the value under that key.
proof fn lemma_push_entry<V>(before: Seq<(String, V)>, key: String, value: V)
    requires
        entry_names(before).no_duplicates(),
        !entry_names(before).contains(key@),
    ensures
        entry_names(before.push((key, value))) == entry_names(before).push(key@),
        entry_names(before.push((key, value))).no_duplicates(),
        entries_map(before.push((key, value))) == entries_map(before).insert(key@, value),
{
    let after = before.push((key, value));
    let names = entry_names(before);
    let after_names = entry_names(after);
    assert(after_names =~= names.push(key@));
    assert forall|a: int, b: int|
        0 <= a < after_names.len() && 0 <= b < after_names.len() && a != b implies after_names[a]
        != after_names[b] by {
        if a < names.len() {
            assert(names[a] == after_names[a]);
        }
        if b < names.len() {
            assert(names[b] == after_names[b]);
        }
    }
    assert forall|n: Seq<char>| after_names.contains(n) <==> (names.contains(n) || n == key@) by {
        if names.contains(n) {
            let j = names.index_of(n);
            assert(0 <= j < names.len() && names[j] == n);
            assert(after_names[j] == n);
        }
        if n == key@ {
            assert(after_names[before.len() as int] == n);
        }
        if after_names.contains(n) {
            let j = after_names.index_of(n);
            assert(0 <= j < after_names.len() && after_names[j] == n);
            if j < names.len() {
                assert(names[j] == n);
            }
        }
    }
    assert forall|n: Seq<char>| after_names.contains(n) implies #[trigger] entries_map(after)[n]
        == entries_map(before).insert(key@, value)[n] by {
        if n == key@ {
            lemma_position_of_name(after, before.len() as int);
        } else {
            let j = names.index_of(n);
            assert(0 <= j < names.len() && names[j] == n);
            assert(after_names[j] == n);
            lemma_position_of_name(after, j);
        }
    }
    assert(entries_map(after) =~= entries_map(before).insert(key@, value));
}

/// Taking the entry at a position out removes the key at that position.
proof fn lemma_remove_entry<V>(before: Seq<(String, V)>, i: int)
    requires
        entry_names(before).no_duplicates(),
        0 <= i < before.len(),
    ensures
        entry_names(before.remove(i)) == entry_names(before).remove(i),
        entry_names(before.remove(i)).no_duplicates(),
        entries_map(before.remove(i)) == entries_map(before).remove(entry_names(before)[i]),
        entries_map(before).contains_key(entry_names(before)[i]),
        entries_map(before)[entry_names(before)[i]] == before[i].1,
{
    let after = before.remove(i);
    let names = entry_names(before);
    let after_names = entry_names(after);
    let key = names[i];
    assert(after_names =~= names.remove(i));
    lemma_position_of_name(before, i);
    assert forall|a: int, b: int|
        0 <= a < after_names.len() && 0 <= b < after_names.len() && a != b implies after_names[a]
        != after_names[b] by {
        let a0 = if a < i { a } else { a + 1 };
        let b0 = if b < i { b } else { b + 1 };
        assert(names[a0] == after_names[a] && names[b0] == after_names[b]);
    }
    assert forall|n: Seq<char>| after_names.contains(n) <==> (names.contains(n) && n != key) by {
        if names.contains(n) && n != key {
            let j = names.index_of(n);
            assert(0 <= j < names.len() && names[j] == n);
            let j1 = if j < i { j } else { j - 1 };
            assert(after_names[j1] == n);
        }
        if after_names.contains(n) {
            let j = after_names.index_of(n);
            assert(0 <= j < after_names.len() && after_names[j] == n);
            let j0 = if j < i { j } else { j + 1 };
            assert(names[j0] == n);
        }
    }
    assert forall|n: Seq<char>| after_names.contains(n) implies #[trigger] entries_map(after)[n]
        == entries_map(before)[n] by {
        let j = after_names.index_of(n);
        assert(0 <= j < after_names.len() && after_names[j] == n);
        let j0 = if j < i { j } else { j + 1 };
        assert(names[j0] == n);
        lemma_position_of_name(before, j0);
    }
    assert(entries_map(after) =~= entries_map(before).remove(key));
}

/// A map from names to values. No name occurs twice.
#[derive(Debug)]
pub struct Table<V> {
    entries: Vec<(String, V)>,
}

impl<V> View for Table<V> {
    type V = Map<Seq<char>, V>;

    closed spec fn view(&self) -> Map<Seq<char>, V> {
        entries_map(self.entries@)
    }
}

impl<V> Table<V> {
    #[verifier::type_invariant]
    spec fn distinct(self) -> bool {
        entry_names(self.entries@).no_duplicates()
    }

    /// The names in the order in which they were first inserted.
    pub closed spec fn names(&self) -> Seq<Seq<char>> {
        entry_names(self.entries@)
    }

    /// The names are exactly the names that have an entry.
    pub proof fn lemma_domain_is_names(&self)
        ensures
            self@.dom() == self.names().to_set(),
            forall|k: Seq<char>| #[trigger] self@.contains_key(k) <==> self.names().contains(k),
    {
        assert(self@.dom() =~= self.names().to_set());
    }

    /// The table without entries.
    pub fn new() -> (t: Self)
        ensures
            t@ == Map::<Seq<char>, V>::empty(),
            t.names() == Seq::<Seq<char>>::empty(),
    {
        let t = Table { entries: Vec::new() };
        assert(t@ =~= Map::<Seq<char>, V>::empty());
        assert(t.names() =~= Seq::<Seq<char>>::empty());
        t
    }

    /// The number of entries. Its contract also relates `names` to the view:
    /// the names are pairwise distinct and are exactly the view's domain.
    pub fn len(&self) -> (n: usize)
        ensures
            n == self.names().len(),
            n == self@.dom().len(),
            self@.dom().finite(),
            self.names().no_duplicates(),
            self.names().to_set() == self@.dom(),
    {
        proof {
            use_type_invariant(self);
            self.names().unique_seq_to_set();
            assert(self.names().to_set() =~= self@.dom());
            vstd::seq_lib::seq_to_set_is_finite(self.names());
        }
        self.entries.len()
    }

    /// The position of `key` among the names, if it is one of them.
    fn position(&self, key: &String) -> (r: Option<usize>)
        ensures
            match r {
                Some(i) => i < self.names().len() && self.names()[i as int] == key@,
                None => !self.names().contains(key@),
            },
    {
        let mut i: usize = 0;
        while i < self.entries.len()
            invariant
                i <= self.entries.len(),
                forall|j: int| 0 <= j < i ==> self.names()[j] != key@,
            decreases self.entries.len() - i,
        {
            if self.entries[i].0 == *key {
                return Some(i);
            }
            i += 1;
        }
        None
    }

    /// Whether `key` has an entry.
    pub fn contains_key(&self, key: &str) -> (r: bool)
        ensures
            r == self@.contains_key(key@),
    {
        let owned = key.to_owned();
        self.position(&owned).is_some()
    }

    /// The value stored under `key`.
    pub fn get(&self, key: &str) -> (r: Option<&V>)
        ensures
            match r {
                Some(v) => self@.contains_key(key@) && *v == self@[key@],
                None => !self@.contains_key(key@),
            },
    {
        let owned = key.to_owned();
        match self.position(&owned) {
            Some(i) => {
                proof {
                    use_type_invariant(self);
                    lemma_position_of_name(self.entries@, i as int);
                }
                Some(&self.entries[i].1)
            },
            None => None,
        }
    }

    /// The name at position `i`.
    pub fn name_at(&self, i: usize) -> (r: &String)
        requires
            i < self.names().len(),
        ensures
            r@ == self.names()[i as int],
    {
        &self.entries[i].0
    }

    /// The value at position `i`: the one stored under the name at that position.
    pub fn value_at(&self, i: usize) -> (r: &V)
        requires
            i < self.names().len(),
        ensures
            self@.contains_key(self.names()[i as int]),
            *r == self@[self.names()[i as int]],
    {
        proof {
            use_type_invariant(self);
            lemma_position_of_name(self.entries@, i as int);
        }
        &self.entries[i].1
    }

    /// Stores `value` under `key` and returns the value that was there before.
    /// A new name goes to the end; a known name keeps its position.
    pub fn insert(&mut self, key: String, value: V) -> (previous: Option<V>)
        ensures
            final(self)@ == old(self)@.insert(key@, value),
            previous == if old(self)@.contains_key(key@) {
                Some(old(self)@[key@])
            } else {
                None::<V>
            },
            final(self).names() == if old(self)@.contains_key(key@) {
                old(self).names()
            } else {
                old(self).names().push(key@)
            },
    {
        proof {
            use_type_invariant(&*self);
        }
        let found = self.position(&key);
        let mut entries: Vec<(String, V)> = Vec::new();
        std::mem::swap(&mut entries, &mut self.entries);
        let ghost before = entries@;
        let previous = match found {
            Some(i) => {
                proof {
                    lemma_position_of_name(before, i as int);
                    lemma_replace_entry(before, i as int, key, value);
                }
                let removed = entries.remove(i);
                entries.insert(i, (key, value));
                assert(entries@ =~= before.update(i as int, (key, value)));
                Some(removed.1)
            },
            None => {
                proof {
                    lemma_push_entry(before, key, value);
                }
                entries.push((key, value));
                None
            },
        };
        self.entries = entries;
        previous
    }

    /// Takes the entry of `key` out and returns its value.
    pub fn remove(&mut self, key: &str) -> (removed: Option<V>)
        ensures
            final(self)@ == old(self)@.remove(key@),
            removed == if old(self)@.contains_key(key@) {
                Some(old(self)@[key@])
            } else {
                None::<V>
            },
            final(self).names() == if old(self)@.contains_key(key@) {
                old(self).names().remove(old(self).names().index_of(key@))
            } else {
                old(self).names()
            },
    {
        proof {
            use_type_invariant(&*self);
        }
        let owned = key.to_owned();
        match self.position(&owned) {
            Some(i) => {
                let mut entries: Vec<(String, V)> = Vec::new();
                std::mem::swap(&mut entries, &mut self.entries);
                proof {
                    lemma_position_of_name(entries@, i as int);
                    lemma_remove_entry(entries@, i as int);
                }
                let taken = entries.remove(i);
                self.entries = entries;
                Some(taken.1)
            },
            None => {
                proof {
                    assert(self@ =~= old(self)@.remove(key@));
                }
                None
            },
        }
    }

    /// Empties the table and hands out its entries in order.
    pub fn take_all(&mut self) -> (taken: Vec<(String, V)>)
        ensures
            final(self)@ == Map::<Seq<char>, V>::empty(),
            final(self).names() == Seq::<Seq<char>>::empty(),
            entry_names(taken@) == old(self).names(),
            entry_names(taken@).no_duplicates(),
            entry_names(taken@).to_set() == old(self)@.dom(),
            forall|i: int|
                0 <= i < taken@.len() ==> old(self)@.contains_key(#[trigger] entry_names(taken@)[i])
                    && taken@[i].1 == old(self)@[entry_names(taken@)[i]],
    {
        proof {
            use_type_invariant(&*self);
        }
        let mut entries: Vec<(String, V)> = Vec::new();
        std::mem::swap(&mut entries, &mut self.entries);
        proof {
            old(self).lemma_domain_is_names();
            assert(self@ =~= Map::<Seq<char>, V>::empty());
            assert(self.names() =~= Seq::<Seq<char>>::empty());
            assert forall|i: int| 0 <= i < entries@.len() implies old(self)@.contains_key(
                #[trigger] entry_names(entries@)[i],
            ) && entries@[i].1 == old(self)@[entry_names(entries@)[i]] by {
                lemma_position_of_name(entries@, i);
            }
        }
        entries
    }
}

} // verus!
