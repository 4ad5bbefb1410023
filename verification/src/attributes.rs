//! Attribute collections attached to the cells or points of a data set.
//!
//! A data set carries a list of named data arrays per cell and per point —
//! material ids, displacements, stresses — plus a record of which array
//! currently serves as the active scalars and the active vectors. The
//! arrays' payloads live with the arrays themselves; the collection tracks
//! their names, their order, and the active choices.

use vstd::prelude::*;

use crate::double_array::DoubleArray;
use crate::int_array::IntArray;

verus! {

/// The name under which an array was attached, if it had one.
pub open spec fn stored_name(entry: Option<String>) -> Option<Seq<char>> {
    match entry {
        Some(name) => Some(name@),
        None => None,
    }
}

/// Attribute arrays attached to the cells of a data set.
pub struct CellData {
    arrays: Vec<Option<String>>,
    active_scalars: Option<String>,
    active_vectors: Option<String>,
}

impl CellData {
    /// The names of the attached arrays, in attachment order.
    pub closed spec fn arrays_view(&self) -> Seq<Option<Seq<char>>> {
        self.arrays@.map_values(|entry: Option<String>| stored_name(entry))
    }

    /// The name selected for the active scalars, if any.
    pub closed spec fn active_scalars_view(&self) -> Option<Seq<char>> {
        stored_name(self.active_scalars)
    }

    /// The name selected for the active vectors, if any.
    pub closed spec fn active_vectors_view(&self) -> Option<Seq<char>> {
        stored_name(self.active_vectors)
    }

    /// The array count fits the 64-bit counter the interface reports.
    pub closed spec fn wf(&self) -> bool {
        self.arrays@.len() <= i64::MAX
    }

    /// An empty collection with no active selections.
    pub fn new() -> (data: Self)
        ensures
            data.wf(),
            data.arrays_view() == Seq::<Option<Seq<char>>>::empty(),
            data.active_scalars_view() is None,
            data.active_vectors_view() is None,
    {
        let data = CellData { arrays: Vec::new(), active_scalars: None, active_vectors: None };
        proof {
            assert(data.arrays_view() =~= Seq::<Option<Seq<char>>>::empty());
        }
        data
    }

    /// Attaches a floating-point array; its name joins the list.
    pub fn add_array(&mut self, array: &DoubleArray)
        requires
            old(self).wf(),
            old(self).arrays_view().len() < i64::MAX,
        ensures
            final(self).wf(),
            final(self).arrays_view() == old(self).arrays_view().push(array.name_view()),
            final(self).active_scalars_view() == old(self).active_scalars_view(),
            final(self).active_vectors_view() == old(self).active_vectors_view(),
    {
        self.arrays.push(array.get_name());
        proof {
            assert(self.arrays_view() =~= old(self).arrays_view().push(array.name_view()));
        }
    }

    /// Attaches an integer array; its name joins the list.
    pub fn add_int_array(&mut self, array: &IntArray)
        requires
            old(self).wf(),
            old(self).arrays_view().len() < i64::MAX,
        ensures
            final(self).wf(),
            final(self).arrays_view() == old(self).arrays_view().push(array.name_view()),
            final(self).active_scalars_view() == old(self).active_scalars_view(),
            final(self).active_vectors_view() == old(self).active_vectors_view(),
    {
        self.arrays.push(array.get_name());
        proof {
            assert(self.arrays_view() =~= old(self).arrays_view().push(array.name_view()));
        }
    }

    /// Detaches the first array attached under `name`; without a match the
    /// collection is unchanged.
    pub fn remove_array(&mut self, name: &str)
        requires
            old(self).wf(),
        ensures
            final(self).wf(),
            final(self).active_scalars_view() == old(self).active_scalars_view(),
            final(self).active_vectors_view() == old(self).active_vectors_view(),
            (match old(self).arrays_view().index_of_first(Some(name@)) {
                Some(index) => final(self).arrays_view() == old(self).arrays_view().remove(index),
                None => final(self).arrays_view() == old(self).arrays_view(),
            }),
    {
        let needle: String = name.to_owned();
        let n = self.arrays.len();
        let mut i: usize = 0;
        while i < n
            invariant
                n == self.arrays@.len() <= i64::MAX,
                0 <= i <= n,
                self.arrays@ == old(self).arrays@,
                self.active_scalars == old(self).active_scalars,
                self.active_vectors == old(self).active_vectors,
                needle@ == name@,
                forall|j: int| 0 <= j < i ==> (#[trigger] self.arrays_view()[j]) != Some(name@),
            decreases n - i,
        {
            let found = match &self.arrays[i] {
                Some(stored) => *stored == needle,
                None => false,
            };
            if found {
                proof {
                    assert(self.arrays_view()[i as int] == Some(name@));
                    old(self).arrays_view().index_of_first_ensures(Some(name@));
                }
                self.arrays.remove(i);
                proof {
                    assert(self.arrays_view() =~= old(self).arrays_view().remove(i as int));
                }
                return;
            }
            i += 1;
        }
        proof {
            old(self).arrays_view().index_of_first_ensures(Some(name@));
        }
    }

    /// The number of attached arrays.
    pub fn get_number_of_arrays(&self) -> (n: i64)
        requires
            self.wf(),
        ensures
            n == self.arrays_view().len(),
    {
        self.arrays.len() as i64
    }

    /// The name of the array at `index`: present exactly when the index is
    /// in range and that array was attached with a name.
    pub fn get_array_name(&self, index: i64) -> (name: Option<String>)
        requires
            self.wf(),
        ensures
            (match name {
                Some(n) => 0 <= index < self.arrays_view().len() && self.arrays_view()[index as int]
                    == Some(n@),
                None => !(0 <= index < self.arrays_view().len()) || self.arrays_view()[index as int]
                    is None,
            }),
    {
        if index < 0 || index >= self.arrays.len() as i64 {
            return None;
        }
        match &self.arrays[index as usize] {
            Some(n) => Some(n.clone()),
            None => None,
        }
    }

    /// Selects the array of this name as the active scalars, the array
    /// used for color mapping.
    pub fn set_active_scalars(&mut self, name: &str)
        ensures
            final(self).wf() == old(self).wf(),
            final(self).arrays_view() == old(self).arrays_view(),
            final(self).active_scalars_view() == Some(name@),
            final(self).active_vectors_view() == old(self).active_vectors_view(),
    {
        self.active_scalars = Some(name.to_owned());
    }

    /// Selects the given array as the active scalars, under its own name.
    pub fn set_scalars(&mut self, array: &DoubleArray)
        ensures
            final(self).wf() == old(self).wf(),
            final(self).arrays_view() == old(self).arrays_view(),
            final(self).active_scalars_view() == array.name_view(),
            final(self).active_vectors_view() == old(self).active_vectors_view(),
    {
        self.active_scalars = array.get_name();
    }

    /// Selects the array of this name as the active vectors, the array
    /// used for vector-field visualization.
    pub fn set_active_vectors(&mut self, name: &str)
        ensures
            final(self).wf() == old(self).wf(),
            final(self).arrays_view() == old(self).arrays_view(),
            final(self).active_vectors_view() == Some(name@),
            final(self).active_scalars_view() == old(self).active_scalars_view(),
    {
        self.active_vectors = Some(name.to_owned());
    }

    /// Selects the given array as the active vectors, under its own name.
    pub fn set_vectors(&mut self, array: &DoubleArray)
        ensures
            final(self).wf() == old(self).wf(),
            final(self).arrays_view() == old(self).arrays_view(),
            final(self).active_vectors_view() == array.name_view(),
            final(self).active_scalars_view() == old(self).active_scalars_view(),
    {
        self.active_vectors = array.get_name();
    }
}

/// Attribute arrays attached to the points of a data set.
pub struct PointData {
    arrays: Vec<Option<String>>,
    active_scalars: Option<String>,
    active_vectors: Option<String>,
}

impl PointData {
    /// The names of the attached arrays, in attachment order.
    pub closed spec fn arrays_view(&self) -> Seq<Option<Seq<char>>> {
        self.arrays@.map_values(|entry: Option<String>| stored_name(entry))
    }

    /// The name selected for the active scalars, if any.
    pub closed spec fn active_scalars_view(&self) -> Option<Seq<char>> {
        stored_name(self.active_scalars)
    }

    /// The name selected for the active vectors, if any.
    pub closed spec fn active_vectors_view(&self) -> Option<Seq<char>> {
        stored_name(self.active_vectors)
    }

    /// The array count fits the 64-bit counter the interface reports.
    pub closed spec fn wf(&self) -> bool {
        self.arrays@.len() <= i64::MAX
    }

    /// An empty collection with no active selections.
    pub fn new() -> (data: Self)
        ensures
            data.wf(),
            data.arrays_view() == Seq::<Option<Seq<char>>>::empty(),
            data.active_scalars_view() is None,
            data.active_vectors_view() is None,
    {
        let data = PointData { arrays: Vec::new(), active_scalars: None, active_vectors: None };
        proof {
            assert(data.arrays_view() =~= Seq::<Option<Seq<char>>>::empty());
        }
        data
    }

    /// Attaches a floating-point array; its name joins the list.
    pub fn add_array(&mut self, array: &DoubleArray)
        requires
            old(self).wf(),
            old(self).arrays_view().len() < i64::MAX,
        ensures
            final(self).wf(),
            final(self).arrays_view() == old(self).arrays_view().push(array.name_view()),
            final(self).active_scalars_view() == old(self).active_scalars_view(),
            final(self).active_vectors_view() == old(self).active_vectors_view(),
    {
        self.arrays.push(array.get_name());
        proof {
            assert(self.arrays_view() =~= old(self).arrays_view().push(array.name_view()));
        }
    }

    /// Attaches an integer array; its name joins the list.
    pub fn add_int_array(&mut self, array: &IntArray)
        requires
            old(self).wf(),
            old(self).arrays_view().len() < i64::MAX,
        ensures
            final(self).wf(),
            final(self).arrays_view() == old(self).arrays_view().push(array.name_view()),
            final(self).active_scalars_view() == old(self).active_scalars_view(),
            final(self).active_vectors_view() == old(self).active_vectors_view(),
    {
        self.arrays.push(array.get_name());
        proof {
            assert(self.arrays_view() =~= old(self).arrays_view().push(array.name_view()));
        }
    }

    /// Detaches the first array attached under `name`; without a match the
    /// collection is unchanged.
    pub fn remove_array(&mut self, name: &str)
        requires
            old(self).wf(),
        ensures
            final(self).wf(),
            final(self).active_scalars_view() == old(self).active_scalars_view(),
            final(self).active_vectors_view() == old(self).active_vectors_view(),
            (match old(self).arrays_view().index_of_first(Some(name@)) {
                Some(index) => final(self).arrays_view() == old(self).arrays_view().remove(index),
                None => final(self).arrays_view() == old(self).arrays_view(),
            }),
    {
        let needle: String = name.to_owned();
        let n = self.arrays.len();
        let mut i: usize = 0;
        while i < n
            invariant
                n == self.arrays@.len() <= i64::MAX,
                0 <= i <= n,
                self.arrays@ == old(self).arrays@,
                self.active_scalars == old(self).active_scalars,
                self.active_vectors == old(self).active_vectors,
                needle@ == name@,
                forall|j: int| 0 <= j < i ==> (#[trigger] self.arrays_view()[j]) != Some(name@),
            decreases n - i,
        {
            let found = match &self.arrays[i] {
                Some(stored) => *stored == needle,
                None => false,
            };
            if found {
                proof {
                    assert(self.arrays_view()[i as int] == Some(name@));
                    old(self).arrays_view().index_of_first_ensures(Some(name@));
                }
                self.arrays.remove(i);
                proof {
                    assert(self.arrays_view() =~= old(self).arrays_view().remove(i as int));
                }
                return;
            }
            i += 1;
        }
        proof {
            old(self).arrays_view().index_of_first_ensures(Some(name@));
        }
    }

    /// The number of attached arrays.
    pub fn get_number_of_arrays(&self) -> (n: i64)
        requires
            self.wf(),
        ensures
            n == self.arrays_view().len(),
    {
        self.arrays.len() as i64
    }

    /// The name of the array at `index`: present exactly when the index is
    /// in range and that array was attached with a name.
    pub fn get_array_name(&self, index: i64) -> (name: Option<String>)
        requires
            self.wf(),
        ensures
            (match name {
                Some(n) => 0 <= index < self.arrays_view().len() && self.arrays_view()[index as int]
                    == Some(n@),
                None => !(0 <= index < self.arrays_view().len()) || self.arrays_view()[index as int]
                    is None,
            }),
    {
        if index < 0 || index >= self.arrays.len() as i64 {
            return None;
        }
        match &self.arrays[index as usize] {
            Some(n) => Some(n.clone()),
            None => None,
        }
    }

    /// Selects the array of this name as the active scalars, the array
    /// used for color mapping.
    pub fn set_active_scalars(&mut self, name: &str)
        ensures
            final(self).wf() == old(self).wf(),
            final(self).arrays_view() == old(self).arrays_view(),
            final(self).active_scalars_view() == Some(name@),
            final(self).active_vectors_view() == old(self).active_vectors_view(),
    {
        self.active_scalars = Some(name.to_owned());
    }

    /// Selects the given array as the active scalars, under its own name.
    pub fn set_scalars(&mut self, array: &DoubleArray)
        ensures
            final(self).wf() == old(self).wf(),
            final(self).arrays_view() == old(self).arrays_view(),
            final(self).active_scalars_view() == array.name_view(),
            final(self).active_vectors_view() == old(self).active_vectors_view(),
    {
        self.active_scalars = array.get_name();
    }

    /// Selects the array of this name as the active vectors, the array
    /// used for vector-field visualization.
    pub fn set_active_vectors(&mut self, name: &str)
        ensures
            final(self).wf() == old(self).wf(),
            final(self).arrays_view() == old(self).arrays_view(),
            final(self).active_vectors_view() == Some(name@),
            final(self).active_scalars_view() == old(self).active_scalars_view(),
    {
        self.active_vectors = Some(name.to_owned());
    }

    /// Selects the given array as the active vectors, under its own name.
    pub fn set_vectors(&mut self, array: &DoubleArray)
        ensures
            final(self).wf() == old(self).wf(),
            final(self).arrays_view() == old(self).arrays_view(),
            final(self).active_vectors_view() == array.name_view(),
            final(self).active_scalars_view() == old(self).active_scalars_view(),
    {
        self.active_vectors = array.get_name();
    }
}

} // verus!
