//! Allow-lists: tables of flags that an admin raises and lowers in bulk.
use crate::ledger::{flag_at, flag_set};
use crate::table::{Table, TableKey};
use vstd::prelude::*;

verus! {

/// What the keys of a list denote, as a set.
pub open spec fn listed_keys<K: TableKey>(keys: Seq<K>) -> Set<K::V> {
    Set::new(|k: K::V| exists|j: int| 0 <= j < keys.len() && #[trigger] keys[j]@ == k)
}

/// The allow-list after the flag of every listed key was set to `flag`.
pub open spec fn flagged<T>(allowed: Set<T>, listed: Set<T>, flag: bool) -> Set<T> {
    if flag {
        allowed.union(listed)
    } else {
        allowed.difference(listed)
    }
}

/// Whether the table holds a raised flag for `key`.
pub(crate) fn read_flag<K: TableKey>(table: &Table<K, bool>, key: &K) -> (r: bool)
    requires
        table.wf(),
    ensures
        r == flag_set(*table).contains(key@),
{
    match table.get(key) {
        Some(flag) => *flag,
        None => false,
    }
}

/// Sets the flag of every listed key to `flag`.
pub(crate) fn set_flags<K: TableKey + Copy>(table: &mut Table<K, bool>, keys: &Vec<K>, flag: bool)
    requires
        old(table).wf(),
    ensures
        final(table).wf(),
        flag_set(*final(table)) == flagged(flag_set(*old(table)), listed_keys(keys@), flag),
{
    let mut i: usize = 0;
    while i < keys.len()
        invariant
            i <= keys@.len(),
            table.wf(),
            forall|k: K::V|
                #![trigger flag_at(*table, k)]
                flag_at(*table, k) == if listed_keys(keys@.take(i as int)).contains(k) {
                    flag
                } else {
                    flag_at(*old(table), k)
                },
        decreases keys@.len() - i,
    {
        let key: K = keys[i];
        let ghost before = *table;
        let ghost done = keys@.take(i as int);
        let ghost next = keys@.take(i + 1);
        table.set(key, flag);
        proof {
            assert(table@ == before@.insert(key@, flag));
            assert forall|k: K::V|
                listed_keys(next).contains(k) <==> listed_keys(done).contains(k) || k == key@ by {
                if listed_keys(done).contains(k) {
                    let j = choose|j: int| 0 <= j < done.len() && #[trigger] done[j]@ == k;
                    assert(next[j]@ == k);
                }
                if k == key@ {
                    assert(next[i as int]@ == k);
                }
                if listed_keys(next).contains(k) && k != key@ {
                    let j = choose|j: int| 0 <= j < next.len() && #[trigger] next[j]@ == k;
                    assert(done[j]@ == k);
                }
            }
            assert forall|k: K::V|
                #![trigger flag_at(*table, k)]
                flag_at(*table, k) == if listed_keys(next).contains(k) {
                    flag
                } else {
                    flag_at(*old(table), k)
                } by {
                assert(table.has(k) == table@.dom().contains(k));
                assert(before.has(k) == before@.dom().contains(k));
                if table.has(k) {
                    assert(table.at(k) == table@[k]);
                }
                if before.has(k) {
                    assert(before.at(k) == before@[k]);
                }
                assert(flag_at(before, k) == if listed_keys(done).contains(k) {
                    flag
                } else {
                    flag_at(*old(table), k)
                });
            }
        }
        i += 1;
    }
    proof {
        assert(keys@.take(keys@.len() as int) =~= keys@);
        assert(flag_set(*table) =~= flagged(flag_set(*old(table)), listed_keys(keys@), flag)) by {
            assert forall|k: K::V|
                flag_set(*table).contains(k) == flagged(
                    flag_set(*old(table)),
                    listed_keys(keys@),
                    flag,
                ).contains(k) by {
                assert(flag_set(*table).contains(k) == flag_at(*table, k));
                assert(flag_set(*old(table)).contains(k) == flag_at(*old(table), k));
            }
        }
    }
}

} // verus!
