//! A small table from keys to values.
use vstd::prelude::*;

verus! {

/// Keys of a [`KeyedTable`]: small values compared as a whole.
pub trait TableKey: Copy + Sized {
    /// Returns whether `self` and `other` are the same key.
    fn same(&self, other: &Self) -> (r: bool)
        ensures
            r == (*self == *other),
    ;
}

/// A table from keys to values, with at most one entry for each key.
#[derive(Debug)]
pub struct KeyedTable<K, V> {
    entries: Vec<(K, V)>,
}

/// Whether no key occurs twice in `entries`.
pub open spec fn keys_unique<K, V>(entries: Seq<(K, V)>) -> bool {
    forall|i: int, j: int|
        0 <= i < entries.len() && 0 <= j < entries.len() && i != j ==> #[trigger] entries[i].0
            != #[trigger] entries[j].0
}

/// The map from each key in `entries` to its value.
pub open spec fn entries_map<K, V>(entries: Seq<(K, V)>) -> Map<K, V> {
    Map::new(
        |k: K| exists|i: int| 0 <= i < entries.len() && entries[i].0 == k,
        |k: K| entries[choose|i: int| 0 <= i < entries.len() && entries[i].0 == k].1,
    )
}

proof fn lemma_entries_map_at<K, V>(entries: Seq<(K, V)>, i: int)
    requires
        keys_unique(entries),
        0 <= i < entries.len(),
    ensures
        entries_map(entries).contains_key(entries[i].0),
        entries_map(entries)[entries[i].0] == entries[i].1,
{
    let k = entries[i].0;
    assert(exists|a: int| 0 <= a < entries.len() && entries[a].0 == k);
    let j = choose|a: int| 0 <= a < entries.len() && entries[a].0 == k;
    assert(entries[j].0 == entries[i].0);
}

proof fn lemma_entries_map_push<K, V>(entries: Seq<(K, V)>, k: K, v: V)
    requires
        keys_unique(entries),
        !entries_map(entries).contains_key(k),
    ensures
        keys_unique(entries.push((k, v))),
        entries_map(entries.push((k, v))) == entries_map(entries).insert(k, v),
{
    let s = entries.push((k, v));
    assert forall|i: int, j: int|
        0 <= i < s.len() && 0 <= j < s.len() && i != j implies #[trigger] s[i].0 != #[trigger] s[j].0 by {
        if i < entries.len() && j < entries.len() {
        } else if i < entries.len() {
            assert(entries[i].0 == s[i].0);
        } else {
            assert(entries[j].0 == s[j].0);
        }
    }
    let m = entries_map(s);
    let n = entries_map(entries).insert(k, v);
    assert forall|key: K| m.contains_key(key) <==> n.contains_key(key) by {
        if m.contains_key(key) {
            let i = choose|i: int| 0 <= i < s.len() && s[i].0 == key;
            if i < entries.len() {
                assert(entries[i].0 == key);
            }
        }
        if n.contains_key(key) && key != k {
            let i = choose|i: int| 0 <= i < entries.len() && entries[i].0 == key;
            assert(s[i].0 == key);
        }
        if key == k {
            assert(s[entries.len() as int].0 == k);
        }
    }
    assert forall|key: K| #[trigger] m.contains_key(key) implies m[key] == n[key] by {
        let i = choose|i: int| 0 <= i < s.len() && s[i].0 == key;
        lemma_entries_map_at(s, i);
        if i < entries.len() {
            lemma_entries_map_at(entries, i);
        }
    }
    assert(m =~= n);
}

proof fn lemma_entries_map_update<K, V>(entries: Seq<(K, V)>, i: int, v: V)
    requires
        keys_unique(entries),
        0 <= i < entries.len(),
    ensures
        keys_unique(entries.update(i, (entries[i].0, v))),
        entries_map(entries.update(i, (entries[i].0, v))) == entries_map(entries).insert(
            entries[i].0,
            v,
        ),
{
    let k = entries[i].0;
    let s = entries.update(i, (k, v));
    assert forall|a: int, b: int|
        0 <= a < s.len() && 0 <= b < s.len() && a != b implies #[trigger] s[a].0 != #[trigger] s[b].0 by {
        assert(s[a].0 == entries[a].0);
        assert(s[b].0 == entries[b].0);
    }
    let m = entries_map(s);
    let n = entries_map(entries).insert(k, v);
    assert forall|key: K| m.contains_key(key) <==> n.contains_key(key) by {
        if m.contains_key(key) {
            let a = choose|a: int| 0 <= a < s.len() && s[a].0 == key;
            assert(entries[a].0 == key);
        }
        if n.contains_key(key) && key != k {
            let a = choose|a: int| 0 <= a < entries.len() && entries[a].0 == key;
            assert(s[a].0 == key);
        }
        if key == k {
            assert(s[i].0 == k);
        }
    }
    assert forall|key: K| #[trigger] m.contains_key(key) implies m[key] == n[key] by {
        let a = choose|a: int| 0 <= a < s.len() && s[a].0 == key;
        lemma_entries_map_at(s, a);
        if a != i {
            lemma_entries_map_at(entries, a);
        }
    }
    assert(m =~= n);
}

proof fn lemma_entries_map_remove<K, V>(entries: Seq<(K, V)>, i: int)
    requires
        keys_unique(entries),
        0 <= i < entries.len(),
    ensures
        keys_unique(entries.remove(i)),
        entries_map(entries.remove(i)) == entries_map(entries).remove(entries[i].0),
{
    let s = entries.remove(i);
    let k = entries[i].0;
    assert forall|a: int| 0 <= a < s.len() implies #[trigger] s[a] == entries[if a < i {
        a
    } else {
        a + 1
    }] by {}
    assert forall|a: int, b: int|
        0 <= a < s.len() && 0 <= b < s.len() && a != b implies #[trigger] s[a].0 != #[trigger] s[b].0 by {
        let ia = if a < i { a } else { a + 1 };
        let ib = if b < i { b } else { b + 1 };
        assert(s[a] == entries[ia]);
        assert(s[b] == entries[ib]);
    }
    let m = entries_map(s);
    let n = entries_map(entries).remove(k);
    assert forall|key: K| m.contains_key(key) <==> n.contains_key(key) by {
        if m.contains_key(key) {
            let a = choose|a: int| 0 <= a < s.len() && s[a].0 == key;
            let ia = if a < i { a } else { a + 1 };
            assert(s[a] == entries[ia]);
            assert(entries[ia].0 == key);
            assert(ia != i);
        }
        if n.contains_key(key) {
            let b = choose|b: int| 0 <= b < entries.len() && entries[b].0 == key;
            assert(b != i);
            let a = if b < i { b } else { b - 1 };
            assert(s[a] == entries[b]);
        }
    }
    assert forall|key: K| #[trigger] m.contains_key(key) implies m[key] == n[key] by {
        let a = choose|a: int| 0 <= a < s.len() && s[a].0 == key;
        let ia = if a < i { a } else { a + 1 };
        assert(s[a] == entries[ia]);
        lemma_entries_map_at(s, a);
        lemma_entries_map_at(entries, ia);
    }
    assert(m =~= n);
}

impl<K, V> View for KeyedTable<K, V> {
    type V = Map<K, V>;

    closed spec fn view(&self) -> Map<K, V> {
        entries_map(self.entries@)
    }
}

impl<K, V> KeyedTable<K, V> {
    #[verifier::type_invariant]
    closed spec fn inv(&self) -> bool {
        keys_unique(self.entries@)
    }
}

impl<K: TableKey, V> KeyedTable<K, V> {
    /// Returns an empty table.
    pub fn new() -> (r: Self)
        ensures
            r@ == Map::<K, V>::empty(),
    {
        let r = KeyedTable { entries: Vec::new() };
        assert(r@ =~= Map::<K, V>::empty());
        r
    }

    fn position(&self, key: K) -> (r: Option<usize>)
        ensures
            r is Some <==> self@.contains_key(key),
            r matches Some(i) ==> i < self.entries@.len() && self.entries@[i as int].0 == key,
    {
        proof { use_type_invariant(self); }
        let mut i: usize = 0;
        while i < self.entries.len()
            invariant
                i <= self.entries@.len(),
                forall|a: int| 0 <= a < i ==> self.entries@[a].0 != key,
            decreases self.entries.len() - i,
        {
            if self.entries[i].0.same(&key) {
                return Some(i);
            }
            i = i + 1;
        }
        None
    }

    /// Returns whether the table has an entry for `key`.
    pub fn contains_key(&self, key: K) -> (r: bool)
        ensures
            r == self@.contains_key(key),
    {
        self.position(key).is_some()
    }

    /// Returns the value of `key`, if the table has an entry for it.
    pub fn get(&self, key: K) -> (r: Option<&V>)
        ensures
            r is Some <==> self@.contains_key(key),
            r matches Some(v) ==> *v == self@[key],
    {
        proof { use_type_invariant(self); }
        match self.position(key) {
            Some(i) => {
                proof { lemma_entries_map_at(self.entries@, i as int); }
                Some(&self.entries[i].1)
            },
            None => None,
        }
    }

    /// Sets the value of `key`, replacing the one it had.
    pub fn insert(&mut self, key: K, value: V)
        ensures
            final(self)@ == old(self)@.insert(key, value),
    {
        proof { use_type_invariant(&*self); }
        let ghost entries = self.entries@;
        let pos = self.position(key);
        let mut taken = Vec::new();
        std::mem::swap(&mut taken, &mut self.entries);
        match pos {
            Some(i) => {
                proof { lemma_entries_map_update(entries, i as int, value); }
                taken.set(i, (key, value));
            },
            None => {
                proof { lemma_entries_map_push(entries, key, value); }
                taken.push((key, value));
            },
        }
        self.entries = taken;
    }

    /// Removes the entry of `key`, if there is one.
    pub fn remove(&mut self, key: K)
        ensures
            final(self)@ == old(self)@.remove(key),
    {
        proof { use_type_invariant(&*self); }
        match self.position(key) {
            Some(i) => {
                let ghost entries = self.entries@;
                proof { lemma_entries_map_remove(entries, i as int); }
                let mut taken = Vec::new();
                std::mem::swap(&mut taken, &mut self.entries);
                taken.remove(i);
                self.entries = taken;
            },
            None => {
                assert(self@ =~= self@.remove(key));
            },
        }
    }

    /// Returns the keys of the table, each once.
    pub fn keys(&self) -> (r: Vec<K>)
        ensures
            r@.to_set() == self@.dom(),
            r@.no_duplicates(),
    {
        proof { use_type_invariant(self); }
        let mut r: Vec<K> = Vec::new();
        let mut i: usize = 0;
        while i < self.entries.len()
            invariant
                i <= self.entries@.len(),
                r@.len() == i,
                forall|a: int| 0 <= a < i ==> r@[a] == self.entries@[a].0,
            decreases self.entries.len() - i,
        {
            r.push(self.entries[i].0);
            i = i + 1;
        }
        let ghost entries = self.entries@;
        assert forall|k: K| r@.to_set().contains(k) <==> self@.dom().contains(k) by {
            if r@.to_set().contains(k) {
                let a = choose|a: int| 0 <= a < r@.len() && r@[a] == k;
                assert(entries[a].0 == k);
            }
            if self@.dom().contains(k) {
                let a = choose|a: int| 0 <= a < entries.len() && entries[a].0 == k;
                assert(r@[a] == k);
            }
        }
        assert(r@.to_set() =~= self@.dom());
        assert forall|a: int, b: int| 0 <= a < r@.len() && 0 <= b < r@.len() && a != b implies r@[a]
            != r@[b] by {
            assert(entries[a].0 != entries[b].0);
        }
        r
    }
}

} // verus!
