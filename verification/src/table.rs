//! A small table keyed by bus address, for what a subscriber keeps of the
//! tray.

use crate::text::str_eq;
use vstd::prelude::*;

verus! {

/// Index of the first entry of `entries` under `key`, or `entries.len()`
/// when there is none.
pub open spec fn key_index<T>(entries: Seq<(Seq<char>, T)>, key: Seq<char>) -> int
    decreases entries.len(),
{
    if entries.len() == 0 || entries[0].0 == key {
        0
    } else {
        1 + key_index(entries.drop_first(), key)
    }
}

/// `key_index` is the least index of an entry under `key`, and the length
/// when there is none.
pub proof fn lemma_key_index<T>(entries: Seq<(Seq<char>, T)>, key: Seq<char>)
    ensures
        0 <= key_index(entries, key) <= entries.len(),
        forall|j: int| 0 <= j < key_index(entries, key) ==> entries[j].0 != key,
        key_index(entries, key) < entries.len() ==> entries[key_index(entries, key)].0 == key,
    decreases entries.len(),
{
    if entries.len() == 0 || entries[0].0 == key {
    } else {
        let rest = entries.drop_first();
        lemma_key_index(rest, key);
        assert forall|j: int| 0 <= j < key_index(entries, key) implies entries[j].0 != key by {
            if j > 0 {
                assert(entries[j] == rest[j - 1]);
            }
        }
        if key_index(entries, key) < entries.len() {
            assert(entries[key_index(entries, key)] == rest[key_index(rest, key)]);
        }
    }
}

/// An index is `key_index(entries, key)` as soon as no entry before it is
/// under `key` and it either is under `key` or is the length.
pub proof fn lemma_key_index_is<T>(entries: Seq<(Seq<char>, T)>, key: Seq<char>, i: int)
    requires
        0 <= i <= entries.len(),
        forall|j: int| 0 <= j < i ==> entries[j].0 != key,
        i < entries.len() ==> entries[i].0 == key,
    ensures
        key_index(entries, key) == i,
{
    lemma_key_index(entries, key);
}

/// No key occurs twice.
pub open spec fn keys_unique<T>(entries: Seq<(Seq<char>, T)>) -> bool {
    forall|i: int, j: int|
        0 <= i < entries.len() && 0 <= j < entries.len() && i != j ==> entries[i].0
            != entries[j].0
}

/// The value under `key`, if there is one.
pub open spec fn lookup<T>(entries: Seq<(Seq<char>, T)>, key: Seq<char>) -> Option<T> {
    let i = key_index(entries, key);
    if i < entries.len() {
        Some(entries[i].1)
    } else {
        None
    }
}

/// `entries` with `value` under `key`: in the place of the entry that was
/// under `key`, or at the end when there was none.
pub open spec fn with_entry<T>(entries: Seq<(Seq<char>, T)>, key: Seq<char>, value: T) -> Seq<
    (Seq<char>, T),
> {
    let i = key_index(entries, key);
    if i < entries.len() {
        entries.update(i, (key, value))
    } else {
        entries.push((key, value))
    }
}

/// `entries` without the entry under `key`.
pub open spec fn without_entry<T>(entries: Seq<(Seq<char>, T)>, key: Seq<char>) -> Seq<
    (Seq<char>, T),
> {
    let i = key_index(entries, key);
    if i < entries.len() {
        entries.remove(i)
    } else {
        entries
    }
}

/// Unique keys stay unique when an entry is put in, and what was put in
/// is found.
pub proof fn lemma_with_entry<T>(entries: Seq<(Seq<char>, T)>, key: Seq<char>, value: T)
    requires
        keys_unique(entries),
    ensures
        keys_unique(with_entry(entries, key, value)),
        lookup(with_entry(entries, key, value), key) == Some(value),
{
    lemma_key_index(entries, key);
    lemma_key_index_is(with_entry(entries, key, value), key, key_index(entries, key));
}

/// Unique keys stay unique when an entry is taken out, and what was taken
/// out is not found.
pub proof fn lemma_without_entry<T>(entries: Seq<(Seq<char>, T)>, key: Seq<char>)
    requires
        keys_unique(entries),
    ensures
        keys_unique(without_entry(entries, key)),
        lookup(without_entry(entries, key), key) is None,
{
    lemma_key_index(entries, key);
    let i = key_index(entries, key);
    let cut = without_entry(entries, key);
    if i < entries.len() {
        assert forall|a: int, b: int|
            0 <= a < cut.len() && 0 <= b < cut.len() && a != b implies cut[a].0 != cut[b].0 by {
            let a0 = if a < i { a } else { a + 1 };
            let b0 = if b < i { b } else { b + 1 };
            assert(cut[a] == entries[a0]);
            assert(cut[b] == entries[b0]);
        }
        assert forall|j: int| 0 <= j < cut.len() implies cut[j].0 != key by {
            let j0 = if j < i { j } else { j + 1 };
            assert(cut[j] == entries[j0]);
        }
    }
    lemma_key_index_is(cut, key, cut.len() as int);
}

/// Values by bus address. No address is listed twice; entries stand in
/// the order in which their addresses first came.
#[derive(Debug)]
pub struct AddressTable<T> {
    entries: Vec<(String, T)>,
}

impl<T> View for AddressTable<T> {
    type V = Seq<(Seq<char>, T)>;

    closed spec fn view(&self) -> Seq<(Seq<char>, T)> {
        Seq::new(self.entries@.len(), |i: int| (self.entries@[i].0@, self.entries@[i].1))
    }
}

impl<T> AddressTable<T> {
    /// No address is listed twice.
    #[verifier::type_invariant]
    pub open spec fn well_formed(self) -> bool {
        keys_unique(self@)
    }

    /// An empty table.
    pub fn new() -> (r: AddressTable<T>)
        ensures
            r@ == Seq::<(Seq<char>, T)>::empty(),
            keys_unique(r@),
    {
        let entries: Vec<(String, T)> = Vec::new();
        assert(Seq::new(entries@.len(), |i: int| (entries@[i].0@, entries@[i].1)) =~= Seq::<
            (Seq<char>, T),
        >::empty());
        AddressTable { entries }
    }

    /// Where `address` is listed.
    fn index_of(&self, address: &str) -> (i: usize)
        ensures
            i == key_index(self@, address@),
            i <= self.entries.len(),
    {
        let mut i: usize = 0;
        while i < self.entries.len()
            invariant
                i <= self.entries.len(),
                forall|j: int| 0 <= j < i ==> self@[j].0 != address@,
            decreases self.entries.len() - i,
        {
            if str_eq(self.entries[i].0.as_str(), address) {
                proof {
                    lemma_key_index_is(self@, address@, i as int);
                }
                return i;
            }
            i += 1;
        }
        proof {
            lemma_key_index_is(self@, address@, i as int);
        }
        i
    }

    /// Puts `value` under `address`, in the place of what was there.
    pub fn insert(&mut self, address: String, value: T)
        ensures
            final(self)@ == with_entry(old(self)@, address@, value),
            keys_unique(old(self)@),
            keys_unique(final(self)@),
    {
        proof {
            use_type_invariant(&*self);
            lemma_with_entry(self@, address@, value);
        }
        let i = self.index_of(address.as_str());
        let ghost before = self@;
        let mut taken = AddressTable::new();
        core::mem::swap(self, &mut taken);
        let AddressTable { entries } = taken;
        let mut entries = entries;
        if i < entries.len() {
            entries.set(i, (address, value));
            assert(Seq::new(entries@.len(), |k: int| (entries@[k].0@, entries@[k].1))
                =~= before.update(i as int, (address@, value)));
        } else {
            entries.push((address, value));
            assert(Seq::new(entries@.len(), |k: int| (entries@[k].0@, entries@[k].1))
                =~= before.push((address@, value)));
        }
        *self = AddressTable { entries };
    }

    /// Takes out what is under `address`, if anything.
    pub fn remove(&mut self, address: &str)
        ensures
            final(self)@ == without_entry(old(self)@, address@),
            keys_unique(old(self)@),
            keys_unique(final(self)@),
    {
        proof {
            use_type_invariant(&*self);
            lemma_without_entry(self@, address@);
        }
        let i = self.index_of(address);
        if i < self.entries.len() {
            let ghost before = self@;
            let mut taken = AddressTable::new();
            core::mem::swap(self, &mut taken);
            let AddressTable { entries } = taken;
            let mut entries = entries;
            entries.remove(i);
            assert(Seq::new(entries@.len(), |k: int| (entries@[k].0@, entries@[k].1))
                =~= before.remove(i as int));
            *self = AddressTable { entries };
        }
    }

    /// The value under `address`.
    pub fn get(&self, address: &str) -> (r: Option<&T>)
        ensures
            match r {
                Some(v) => lookup(self@, address@) == Some(*v),
                None => lookup(self@, address@) is None,
            },
    {
        let i = self.index_of(address);
        if i < self.entries.len() {
            Some(&self.entries[i].1)
        } else {
            None
        }
    }

    /// Number of entries.
    pub fn len(&self) -> (r: usize)
        ensures
            r == self@.len(),
            keys_unique(self@),
    {
        proof {
            use_type_invariant(self);
        }
        self.entries.len()
    }

    /// The entry at `index` in the order of the table.
    pub fn entry(&self, index: usize) -> (r: Option<(&String, &T)>)
        ensures
            match r {
                Some((address, value)) => index < self@.len() && self@[index as int] == (
                    address@,
                    *value,
                ),
                None => index >= self@.len(),
            },
    {
        if index < self.entries.len() {
            Some((&self.entries[index].0, &self.entries[index].1))
        } else {
            None
        }
    }
}

} // verus!
