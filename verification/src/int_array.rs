//! Integer data array: element ids, material ids, flags and the like.
//!
//! The array holds a flat list of 32-bit values grouped into tuples of a
//! fixed component count, and carries an optional name used to identify
//! the array within a data set. Counts are reported as signed 64-bit
//! numbers, so the model keeps its length within that range.

use vstd::prelude::*;

verus! {

/// Flat array of 32-bit integer values with a component count and an
/// optional name.
pub struct IntArray {
    values: Vec<i32>,
    num_components: i64,
    name: Option<String>,
}

impl IntArray {
    /// The stored values, in order.
    pub closed spec fn values(&self) -> Seq<i32> {
        self.values@
    }

    /// Number of components per tuple.
    pub closed spec fn components(&self) -> i64 {
        self.num_components
    }

    /// The array's name, if one was given.
    pub closed spec fn name_view(&self) -> Option<Seq<char>> {
        match self.name {
            Some(name) => Some(name@),
            None => None,
        }
    }

    /// At least one component per tuple, and a length the 64-bit counters
    /// can report.
    pub closed spec fn wf(&self) -> bool {
        &&& 1 <= self.num_components
        &&& self.values@.len() <= i64::MAX
    }

    /// An empty, unnamed array of one component per tuple.
    pub fn new() -> (array: Self)
        ensures
            array.wf(),
            array.values() == Seq::<i32>::empty(),
            array.components() == 1,
            array.name_view() is None,
    {
        IntArray { values: Vec::new(), num_components: 1, name: None }
    }

    /// An empty array of one component per tuple carrying the given name,
    /// ready for element or material ids.
    pub fn new_id_array(name: &str) -> (array: Self)
        ensures
            array.wf(),
            array.values() == Seq::<i32>::empty(),
            array.components() == 1,
            array.name_view() == Some(name@),
    {
        let mut array = Self::new();
        array.set_number_of_components(1);
        array.set_name(name);
        array
    }

    /// Sets the number of components per tuple.
    pub fn set_number_of_components(&mut self, num_components: i64)
        requires
            old(self).wf(),
            1 <= num_components,
        ensures
            final(self).wf(),
            final(self).components() == num_components,
            final(self).values() == old(self).values(),
            final(self).name_view() == old(self).name_view(),
    {
        self.num_components = num_components;
    }

    /// The number of components per tuple.
    pub fn get_number_of_components(&self) -> (n: i64)
        requires
            self.wf(),
        ensures
            n == self.components(),
    {
        self.num_components
    }

    /// Resizes the array to hold `num_tuples` tuples: values already
    /// stored keep their places, and any newly exposed slot reads as `0`.
    pub fn set_number_of_tuples(&mut self, num_tuples: i64)
        requires
            old(self).wf(),
            0 <= num_tuples,
            num_tuples * old(self).components() <= i64::MAX,
        ensures
            final(self).wf(),
            final(self).components() == old(self).components(),
            final(self).name_view() == old(self).name_view(),
            final(self).values().len() == num_tuples * old(self).components(),
            forall|i: int|
                0 <= i < old(self).values().len() && i < final(self).values().len()
                    ==> final(self).values()[i] == old(self).values()[i],
            forall|i: int|
                old(self).values().len() <= i < final(self).values().len()
                    ==> final(self).values()[i] == 0,
    {
        proof {
            assert(0 <= num_tuples * self.num_components) by (nonlinear_arith)
                requires
                    0 <= num_tuples,
                    1 <= self.num_components,
            ;
        }
        let target: i64 = num_tuples * self.num_components;
        while self.values.len() as i64 > target
            invariant
                0 <= target,
                self.values@.len() <= old(self).values@.len() <= i64::MAX,
                self.values@ == old(self).values@.subrange(0, self.values@.len() as int),
                self.num_components == old(self).num_components,
                self.name == old(self).name,
                self.values@.len() as int >= (if old(self).values@.len() as int <= target as int {
                    old(self).values@.len() as int
                } else {
                    target as int
                }),
            decreases self.values@.len(),
        {
            self.values.pop();
            proof {
                assert(self.values@ =~= old(self).values@.subrange(
                    0,
                    self.values@.len() as int,
                ));
            }
        }
        while (self.values.len() as i64) < target
            invariant
                0 <= target <= i64::MAX,
                self.values@.len() as int <= target as int,
                old(self).values@.len() <= self.values@.len() || self.values@.len() as int
                    == target as int,
                self.num_components == old(self).num_components,
                self.name == old(self).name,
                forall|i: int|
                    0 <= i < old(self).values@.len() && i < self.values@.len()
                        ==> self.values@[i] == old(self).values@[i],
                forall|i: int|
                    old(self).values@.len() <= i < self.values@.len() ==> self.values@[i] == 0,
            decreases target - self.values@.len(),
        {
            self.values.push(0);
        }
    }

    /// The number of tuples: the value count divided by the component
    /// count.
    pub fn get_number_of_tuples(&self) -> (n: i64)
        requires
            self.wf(),
        ensures
            n == self.values().len() as int / self.components() as int,
    {
        (self.values.len() as i64) / self.num_components
    }

    /// The total number of stored values.
    pub fn get_number_of_values(&self) -> (n: i64)
        requires
            self.wf(),
        ensures
            n == self.values().len(),
    {
        self.values.len() as i64
    }

    /// Names the array.
    pub fn set_name(&mut self, name: &str)
        ensures
            final(self).wf() == old(self).wf(),
            final(self).name_view() == Some(name@),
            final(self).values() == old(self).values(),
            final(self).components() == old(self).components(),
    {
        self.name = Some(name.to_owned());
    }

    /// The array's name, if one was given.
    pub fn get_name(&self) -> (name: Option<String>)
        ensures
            (match name {
                Some(n) => self.name_view() == Some(n@),
                None => self.name_view() is None,
            }),
    {
        match &self.name {
            Some(n) => Some(n.clone()),
            None => None,
        }
    }

    /// Appends a value and returns its index.
    pub fn insert_next_value(&mut self, value: i32) -> (id: i64)
        requires
            old(self).wf(),
            old(self).values().len() < i64::MAX,
        ensures
            final(self).wf(),
            id == old(self).values().len(),
            final(self).values() == old(self).values().push(value),
            final(self).components() == old(self).components(),
            final(self).name_view() == old(self).name_view(),
    {
        let id = self.values.len() as i64;
        self.values.push(value);
        id
    }

    /// Appends a one-component tuple and returns its tuple index; for a
    /// one-component array that is the value index.
    pub fn insert_next_tuple1(&mut self, value: i32) -> (id: i64)
        requires
            old(self).wf(),
            old(self).components() == 1,
            old(self).values().len() < i64::MAX,
        ensures
            final(self).wf(),
            id == old(self).values().len(),
            final(self).values() == old(self).values().push(value),
            final(self).components() == old(self).components(),
            final(self).name_view() == old(self).name_view(),
    {
        self.insert_next_value(value)
    }

    /// Overwrites the value at `id`.
    pub fn set_value(&mut self, id: i64, value: i32)
        requires
            old(self).wf(),
            0 <= id < old(self).values().len(),
        ensures
            final(self).wf(),
            final(self).values() == old(self).values().update(id as int, value),
            final(self).components() == old(self).components(),
            final(self).name_view() == old(self).name_view(),
    {
        proof {
            vstd::std_specs::vec::axiom_spec_len(&self.values);
        }
        self.values.set(id as usize, value);
    }

    /// Overwrites the one-component tuple at `id`.
    pub fn set_tuple1(&mut self, id: i64, value: i32)
        requires
            old(self).wf(),
            old(self).components() == 1,
            0 <= id < old(self).values().len(),
        ensures
            final(self).wf(),
            final(self).values() == old(self).values().update(id as int, value),
            final(self).components() == old(self).components(),
            final(self).name_view() == old(self).name_view(),
    {
        self.set_value(id, value);
    }

    /// The value at `id`.
    pub fn get_value(&self, id: i64) -> (value: i32)
        requires
            self.wf(),
            0 <= id < self.values().len(),
        ensures
            value == self.values()[id as int],
    {
        proof {
            vstd::std_specs::vec::axiom_spec_len(&self.values);
        }
        self.values[id as usize]
    }

    /// The tuple at `id`: the component-count many values starting at
    /// `id` times the component count.
    pub fn get_tuple(&self, id: i64) -> (tuple: Vec<i32>)
        requires
            self.wf(),
            0 <= id,
            (id + 1) * self.components() <= self.values().len(),
        ensures
            tuple@ == self.values().subrange(
                id as int * self.components() as int,
                id as int * self.components() as int + self.components() as int,
            ),
    {
        proof {
            assert(0 <= id * self.num_components && id * self.num_components
                + self.num_components == (id + 1) * self.num_components) by (nonlinear_arith)
                requires
                    0 <= id,
                    1 <= self.num_components,
            ;
        }
        proof {
            vstd::std_specs::vec::axiom_spec_len(&self.values);
        }
        let start: i64 = id * self.num_components;
        let end: i64 = start + self.num_components;
        let mut tuple: Vec<i32> = Vec::new();
        let mut j: i64 = start;
        while j < end
            invariant
                start <= j <= end,
                end <= self.values@.len() <= i64::MAX,
                self.values@.len() <= usize::MAX,
                0 <= start,
                tuple@ == self.values@.subrange(start as int, j as int),
            decreases end - j,
        {
            tuple.push(self.values[j as usize]);
            proof {
                assert(tuple@ =~= self.values@.subrange(start as int, j as int + 1));
            }
            j = j + 1;
        }
        tuple
    }

    /// Drops all stored values; the component count and name remain.
    pub fn initialize(&mut self)
        requires
            old(self).wf(),
        ensures
            final(self).wf(),
            final(self).values() == Seq::<i32>::empty(),
            final(self).components() == old(self).components(),
            final(self).name_view() == old(self).name_view(),
    {
        self.values.clear();
    }

    /// Releases spare storage; the stored values are untouched.
    pub fn squeeze(&mut self)
        ensures
            *final(self) == *old(self),
    {
    }
}

} // verus!
