//! Association table from integer handles to stored values.
//!
//! The callback registry cannot hand closures across the native calling
//! convention, so it refers to every stored handler by a small integer
//! handle. This module provides the underlying table: a flat list of
//! handle/value pairs in which no handle occurs twice, viewed in
//! specifications as a mathematical map.

use vstd::prelude::*;

verus! {

/// Table assigning stored values to integer handles, with no two entries
/// sharing a handle.
pub struct HandleTable<T> {
    entries: Vec<(i64, T)>,
}

/// The mathematical map described by a sequence of handle/value pairs.
/// A later entry for a handle would shadow an earlier one, but a
/// well-formed table never repeats a handle.
pub open spec fn table_map<T>(entries: Seq<(i64, T)>) -> Map<i64, T>
    decreases entries.len(),
{
    if entries.len() == 0 {
        Map::empty()
    } else {
        table_map(entries.drop_last()).insert(entries.last().0, entries.last().1)
    }
}

proof fn lemma_table_map_domain<T>(entries: Seq<(i64, T)>, handle: i64)
    ensures
        table_map(entries).contains_key(handle) <==> exists|i: int|
            0 <= i < entries.len() && (#[trigger] entries[i]).0 == handle,
    decreases entries.len(),
{
    if entries.len() > 0 {
        lemma_table_map_domain(entries.drop_last(), handle);
        if table_map(entries).contains_key(handle) {
            if entries.last().0 == handle {
                assert(entries[entries.len() - 1].0 == handle);
            } else {
                let i = choose|i: int|
                    0 <= i < entries.drop_last().len() && (#[trigger] entries.drop_last()[i]).0
                        == handle;
                assert(entries[i].0 == handle);
            }
        }
        if exists|i: int| 0 <= i < entries.len() && (#[trigger] entries[i]).0 == handle {
            let i = choose|i: int| 0 <= i < entries.len() && (#[trigger] entries[i]).0 == handle;
            if i < entries.len() - 1 {
                assert(entries.drop_last()[i].0 == handle);
            }
        }
    }
}

proof fn lemma_table_map_value<T>(entries: Seq<(i64, T)>, i: int)
    requires
        0 <= i < entries.len(),
        forall|j: int| i < j < entries.len() ==> (#[trigger] entries[j]).0 != entries[i].0,
    ensures
        table_map(entries).contains_key(entries[i].0),
        table_map(entries)[entries[i].0] == entries[i].1,
    decreases entries.len(),
{
    if i < entries.len() - 1 {
        assert(forall|j: int|
            i < j < entries.drop_last().len() ==> (#[trigger] entries.drop_last()[j]).0
                != entries.drop_last()[i].0);
        lemma_table_map_value(entries.drop_last(), i);
    }
}

proof fn lemma_table_map_push<T>(entries: Seq<(i64, T)>, handle: i64, value: T)
    ensures
        table_map(entries.push((handle, value))) == table_map(entries).insert(handle, value),
{
    assert(entries.push((handle, value)).drop_last() =~= entries);
}

impl<T> View for HandleTable<T> {
    type V = Map<i64, T>;

    closed spec fn view(&self) -> Map<i64, T> {
        table_map(self.entries@)
    }
}

impl<T> HandleTable<T> {
    /// No two entries of the table carry the same handle.
    pub closed spec fn wf(&self) -> bool {
        forall|i: int, j: int|
            0 <= i < j < self.entries@.len() ==> (#[trigger] self.entries@[i]).0 != (
            #[trigger] self.entries@[j]).0
    }

    /// An empty table.
    pub fn new() -> (table: Self)
        ensures
            table.wf(),
            table@ == Map::<i64, T>::empty(),
    {
        HandleTable { entries: Vec::new() }
    }

    /// Stores `value` under `handle`, which must not be in use yet.
    pub fn insert(&mut self, handle: i64, value: T)
        requires
            old(self).wf(),
            !old(self)@.contains_key(handle),
        ensures
            final(self).wf(),
            final(self)@ == old(self)@.insert(handle, value),
    {
        proof {
            lemma_table_map_domain(self.entries@, handle);
            lemma_table_map_push(self.entries@, handle, value);
        }
        self.entries.push((handle, value));
    }

    /// Looks the handle up, returning the stored value exactly when the
    /// handle is present.
    pub fn get(&self, handle: i64) -> (result: Option<&T>)
        requires
            self.wf(),
        ensures
            (match result {
                Some(value) => self@.contains_key(handle) && *value == self@[handle],
                None => !self@.contains_key(handle),
            }),
    {
        let n = self.entries.len();
        let mut i: usize = 0;
        while i < n
            invariant
                n == self.entries@.len(),
                0 <= i <= n,
                self.wf(),
                forall|j: int| 0 <= j < i ==> (#[trigger] self.entries@[j]).0 != handle,
            decreases n - i,
        {
            if self.entries[i].0 == handle {
                proof {
                    lemma_table_map_value(self.entries@, i as int);
                }
                return Some(&self.entries[i].1);
            }
            i += 1;
        }
        proof {
            lemma_table_map_domain(self.entries@, handle);
        }
        None
    }
}

} // verus!
