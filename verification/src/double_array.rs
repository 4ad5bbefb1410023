//! Shape and identity of a floating-point data array.
//!
//! Analysis results — displacements, stresses, vector fields — are stored
//! natively as arrays of doubles. The numeric payload stays with the
//! native array; this model tracks what the library can state exactly
//! about such an array: its name, its component count, and how many
//! values it is declared to hold.

use vstd::prelude::*;

verus! {

/// Declared shape and name of an array of doubles: `num_values` values
/// grouped into tuples of `num_components`.
pub struct DoubleArray {
    num_components: i64,
    num_values: i64,
    name: Option<String>,
}

impl DoubleArray {
    /// Number of components per tuple.
    pub closed spec fn components(&self) -> i64 {
        self.num_components
    }

    /// Total number of declared values.
    pub closed spec fn num_values(&self) -> i64 {
        self.num_values
    }

    /// The array's name, if one was given.
    pub closed spec fn name_view(&self) -> Option<Seq<char>> {
        match self.name {
            Some(name) => Some(name@),
            None => None,
        }
    }

    /// At least one component per tuple, and no negative size.
    pub closed spec fn wf(&self) -> bool {
        &&& 1 <= self.num_components
        &&& 0 <= self.num_values
    }

    /// An empty, unnamed array of one component per tuple.
    pub fn new() -> (array: Self)
        ensures
            array.wf(),
            array.components() == 1,
            array.num_values() == 0,
            array.name_view() is None,
    {
        DoubleArray { num_components: 1, num_values: 0, name: None }
    }

    /// An empty one-component array carrying the given name, ready for
    /// scalar results such as displacement magnitudes.
    pub fn new_scalar(name: &str) -> (array: Self)
        ensures
            array.wf(),
            array.components() == 1,
            array.num_values() == 0,
            array.name_view() == Some(name@),
    {
        let mut array = Self::new();
        array.set_number_of_components(1);
        array.set_name(name);
        array
    }

    /// An empty three-component array carrying the given name, ready for
    /// vector results such as displacement vectors.
    pub fn new_vector(name: &str) -> (array: Self)
        ensures
            array.wf(),
            array.components() == 3,
            array.num_values() == 0,
            array.name_view() == Some(name@),
    {
        let mut array = Self::new();
        array.set_number_of_components(3);
        array.set_name(name);
        array
    }

    /// Sets the number of components per tuple.
    pub fn set_number_of_components(&mut self, num_components: i64)
        requires
            old(self).wf(),
            1 <= num_components,
        ensures
            final(self).wf(),
            final(self).components() == num_components,
            final(self).num_values() == old(self).num_values(),
            final(self).name_view() == old(self).name_view(),
    {
        self.num_components = num_components;
    }

    /// The number of components per tuple.
    pub fn get_number_of_components(&self) -> (n: i64)
        requires
            self.wf(),
        ensures
            n == self.components(),
    {
        self.num_components
    }

    /// Declares the array to hold `num_tuples` tuples.
    pub fn set_number_of_tuples(&mut self, num_tuples: i64)
        requires
            old(self).wf(),
            0 <= num_tuples,
            num_tuples * old(self).components() <= i64::MAX,
        ensures
            final(self).wf(),
            final(self).components() == old(self).components(),
            final(self).name_view() == old(self).name_view(),
            final(self).num_values() == num_tuples * old(self).components(),
    {
        proof {
            assert(0 <= num_tuples * self.num_components) by (nonlinear_arith)
                requires
                    0 <= num_tuples,
                    1 <= self.num_components,
            ;
        }
        self.num_values = num_tuples * self.num_components;
    }

    /// The number of tuples: the value count divided by the component
    /// count.
    pub fn get_number_of_tuples(&self) -> (n: i64)
        requires
            self.wf(),
        ensures
            n == self.num_values() as int / self.components() as int,
    {
        self.num_values / self.num_components
    }

    /// The total number of declared values.
    pub fn get_number_of_values(&self) -> (n: i64)
        requires
            self.wf(),
        ensures
            n == self.num_values(),
    {
        self.num_values
    }

    /// Names the array.
    pub fn set_name(&mut self, name: &str)
        ensures
            final(self).wf() == old(self).wf(),
            final(self).name_view() == Some(name@),
            final(self).components() == old(self).components(),
            final(self).num_values() == old(self).num_values(),
    {
        self.name = Some(name.to_owned());
    }

    /// The array's name, if one was given.
    pub fn get_name(&self) -> (name: Option<String>)
        ensures
            (match name {
                Some(n) => self.name_view() == Some(n@),
                None => self.name_view() is None,
            }),
    {
        match &self.name {
            Some(n) => Some(n.clone()),
            None => None,
        }
    }

    /// Drops the declared contents; the component count and name remain.
    pub fn initialize(&mut self)
        requires
            old(self).wf(),
        ensures
            final(self).wf(),
            final(self).num_values() == 0,
            final(self).components() == old(self).components(),
            final(self).name_view() == old(self).name_view(),
    {
        self.num_values = 0;
    }

    /// Releases spare storage; the declared contents are untouched.
    pub fn squeeze(&mut self)
        ensures
            *final(self) == *old(self),
    {
    }
}

} // verus!
