//! A small keyed table: the form in which the ledger keeps its records.
//!
//! A table holds its entries in the order in which their keys first came in,
//! no key twice. It is modelled by the sequence of its keys, the sequence of
//! its values beside it, and the map from one to the other.
use crate::address::Address;
use crate::uint::U256;
use vstd::prelude::*;

verus! {

/// A key of a table: a value that can be told apart from another by its model.
pub trait TableKey: View + Sized {
    /// Whether the two keys denote the same thing.
    fn same(&self, other: &Self) -> (r: bool)
        ensures
            r == (self@ == other@),
    ;
}

impl TableKey for Address {
    fn same(&self, other: &Address) -> (r: bool) {
        self.equals(other)
    }
}

impl TableKey for U256 {
    fn same(&self, other: &U256) -> (r: bool) {
        self.equals(other)
    }
}

impl TableKey for String {
    fn same(&self, other: &String) -> (r: bool) {
        *self == *other
    }
}

impl TableKey for (Address, Address) {
    fn same(&self, other: &(Address, Address)) -> (r: bool) {
        self.0.equals(&other.0) && self.1.equals(&other.1)
    }
}

/// What the keys of a list denote, one by one.
pub open spec fn key_views<K: TableKey>(keys: Seq<K>) -> Seq<K::V> {
    Seq::new(keys.len(), |i: int| keys[i]@)
}

/// A table from keys to values.
#[derive(Debug, PartialEq, Eq)]
pub struct Table<K, V> {
    keys: Vec<K>,
    values: Vec<V>,
}

impl<K: TableKey, V> Table<K, V> {
    /// The keys, in the order in which they first came in.
    pub closed spec fn keys(&self) -> Seq<K::V> {
        key_views(self.keys@)
    }

    /// The values, each at the place of its key.
    pub closed spec fn values(&self) -> Seq<V> {
        self.values@
    }

    /// A table is well formed when each key has one value and stands once.
    pub open spec fn wf(&self) -> bool {
        &&& self.keys().len() == self.values().len()
        &&& self.keys().no_duplicates()
    }

    /// Whether the table has an entry for `key`.
    pub open spec fn has(&self, key: K::V) -> bool {
        self.keys().contains(key)
    }

    /// The value held for `key`, where the table has an entry for it.
    pub open spec fn at(&self, key: K::V) -> V {
        self.values()[self.keys().index_of(key)]
    }

    /// The value held for `key`, if any.
    pub open spec fn lookup(&self, key: K::V) -> Option<V> {
        if self.has(key) {
            Some(self.at(key))
        } else {
            None
        }
    }

    /// The table as a map.
    pub open spec fn view(&self) -> Map<K::V, V> {
        Map::new(|k: K::V| self.has(k), |k: K::V| self.at(k))
    }

    /// The empty table.
    pub fn new() -> (r: Table<K, V>)
        ensures
            r.wf(),
            r.keys() == Seq::<K::V>::empty(),
            r.values() == Seq::<V>::empty(),
    {
        let r = Table { keys: Vec::new(), values: Vec::new() };
        assert(r.keys() =~= Seq::<K::V>::empty());
        r
    }

    /// The table of the given keys, each with the value at its place: where
    /// there is a value for each key, and no key stands twice.
    pub fn from_parts(keys: Vec<K>, values: Vec<V>) -> (r: Option<Table<K, V>>)
        ensures
            match r {
                Some(table) => {
                    &&& table.wf()
                    &&& table.keys() == key_views(keys@)
                    &&& table.values() == values@
                },
                None => keys@.len() != values@.len() || !key_views(keys@).no_duplicates(),
            },
    {
        if keys.len() != values.len() {
            return None;
        }
        let ghost views = key_views(keys@);
        let mut i: usize = 0;
        while i < keys.len()
            invariant
                i <= keys@.len(),
                views == key_views(keys@),
                forall|a: int, b: int| 0 <= a < b < i ==> views[a] != views[b],
            decreases keys@.len() - i,
        {
            let mut j: usize = 0;
            while j < i
                invariant
                    j <= i,
                    i < keys@.len(),
                    views == key_views(keys@),
                    forall|a: int| 0 <= a < j ==> views[a] != views[i as int],
                decreases i - j,
            {
                if keys[j].same(&keys[i]) {
                    proof {
                        assert(views[j as int] == views[i as int]);
                    }
                    return None;
                }
                j += 1;
            }
            i += 1;
        }
        Some(Table { keys, values })
    }

    /// The keys and the values of the table, each value at the place of its
    /// key.
    pub fn into_parts(self) -> (r: (Vec<K>, Vec<V>))
        requires
            self.wf(),
        ensures
            key_views(r.0@) == self.keys(),
            r.1@ == self.values(),
    {
        (self.keys, self.values)
    }

    /// The number of entries.
    pub fn len(&self) -> (r: usize)
        requires
            self.wf(),
        ensures
            r == self.keys().len(),
    {
        self.keys.len()
    }

    /// The place of `key` among the keys, if the table has it.
    pub fn position(&self, key: &K) -> (r: Option<usize>)
        requires
            self.wf(),
        ensures
            match r {
                Some(i) => i < self.keys().len() && self.keys()[i as int] == key@,
                None => !self.has(key@),
            },
    {
        let mut i: usize = 0;
        while i < self.keys.len()
            invariant
                i <= self.keys@.len(),
                forall|j: int| 0 <= j < i ==> self.keys()[j] != key@,
            decreases self.keys@.len() - i,
        {
            if self.keys[i].same(key) {
                return Some(i);
            }
            i += 1;
        }
        None
    }

    /// The key at place `i`.
    pub fn key_at(&self, i: usize) -> (r: &K)
        requires
            self.wf(),
            i < self.keys().len(),
        ensures
            r@ == self.keys()[i as int],
    {
        &self.keys[i]
    }

    /// The value at place `i`.
    pub fn value_at(&self, i: usize) -> (r: &V)
        requires
            self.wf(),
            i < self.keys().len(),
        ensures
            *r == self.values()[i as int],
    {
        &self.values[i]
    }

    /// The value held for `key`, if any.
    pub fn get(&self, key: &K) -> (r: Option<&V>)
        requires
            self.wf(),
        ensures
            match r {
                Some(v) => self.lookup(key@) == Some(*v),
                None => self.lookup(key@) == None::<V>,
            },
    {
        match self.position(key) {
            Some(i) => {
                proof {
                    lemma_place(self.keys(), i as int);
                }
                Some(&self.values[i])
            },
            None => None,
        }
    }

    /// Sets the value held for `key`: in place where the table has the key,
    /// as a new last entry where it has not.
    pub fn set(&mut self, key: K, value: V)
        requires
            old(self).wf(),
        ensures
            final(self).wf(),
            final(self)@ == old(self)@.insert(key@, value),
            old(self).has(key@) ==> {
                &&& final(self).keys() == old(self).keys()
                &&& final(self).values() == old(self).values().update(
                    old(self).keys().index_of(key@),
                    value,
                )
            },
            !old(self).has(key@) ==> {
                &&& final(self).keys() == old(self).keys().push(key@)
                &&& final(self).values() == old(self).values().push(value)
            },
    {
        match self.position(&key) {
            Some(i) => {
                self.values.set(i, value);
                proof {
                    assert(self.keys() =~= old(self).keys());
                    lemma_place(old(self).keys(), i as int);
                    assert(self@ =~= old(self)@.insert(key@, value)) by {
                        assert forall|k: K::V| self.has(k) implies #[trigger] self.at(k) == old(
                            self,
                        )@.insert(key@, value)[k] by {
                            let j = self.keys().index_of(k);
                            lemma_place(self.keys(), j);
                        }
                    }
                }
            },
            None => {
                self.keys.push(key);
                self.values.push(value);
                proof {
                    let n = old(self).keys().len() as int;
                    assert(self.keys() =~= old(self).keys().push(key@));
                    assert(self.keys().no_duplicates()) by {
                        assert forall|a: int, b: int|
                            0 <= a < self.keys().len() && 0 <= b < self.keys().len() && a
                                != b implies self.keys()[a] != self.keys()[b] by {
                            if a < n {
                                assert(old(self).keys()[a] == self.keys()[a]);
                            }
                            if b < n {
                                assert(old(self).keys()[b] == self.keys()[b]);
                            }
                        }
                    }
                    lemma_place(self.keys(), n);
                    assert(self@ =~= old(self)@.insert(key@, value)) by {
                        assert forall|k: K::V| self.has(k) && k != key@ implies old(self).has(k)
                            && #[trigger] self.at(k) == old(self).at(k) by {
                            let j = self.keys().index_of(k);
                            assert(self.keys()[j] == k);
                            assert(j < n);
                            assert(old(self).keys()[j] == k);
                            lemma_place(old(self).keys(), j);
                        }
                        assert forall|k: K::V| old(self).has(k) implies self.has(k) by {
                            let j = old(self).keys().index_of(k);
                            assert(self.keys()[j] == k);
                        }
                    }
                }
            },
        }
    }
}

/// In a sequence without duplicates, an item is found at its own place.
pub proof fn lemma_place<T>(s: Seq<T>, i: int)
    requires
        s.no_duplicates(),
        0 <= i < s.len(),
    ensures
        s.contains(s[i]),
        s.index_of(s[i]) == i,
{
    s.index_of_first_ensures(s[i]);
    let j = s.index_of(s[i]);
    assert(0 <= j < s.len() && s[j] == s[i]);
}

} // verus!
