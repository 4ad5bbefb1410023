//! Connectivity storage for cells of a mesh.
//!
//! A cell array records, for each cell, the list of point ids the cell
//! connects — for a beam element, the two end points. The array is viewed
//! in specifications as a sequence of cells, each cell a sequence of
//! point ids.

use vstd::prelude::*;

verus! {

/// Cells of a mesh, each stored as the point ids it connects.
pub struct CellArray {
    cells: Vec<Vec<i64>>,
}

/// Total number of point ids across all cells.
pub open spec fn connectivity_count(cells: Seq<Seq<i64>>) -> int
    decreases cells.len(),
{
    if cells.len() == 0 {
        0
    } else {
        connectivity_count(cells.drop_last()) + cells.last().len()
    }
}

proof fn lemma_connectivity_count_nonneg(cells: Seq<Seq<i64>>)
    ensures
        connectivity_count(cells) >= 0,
    decreases cells.len(),
{
    if cells.len() > 0 {
        lemma_connectivity_count_nonneg(cells.drop_last());
    }
}

proof fn lemma_connectivity_count_step(cells: Seq<Seq<i64>>, k: int)
    requires
        0 <= k < cells.len(),
    ensures
        connectivity_count(cells.subrange(0, k + 1)) == connectivity_count(cells.subrange(0, k))
            + cells[k].len(),
{
    assert(cells.subrange(0, k + 1).drop_last() =~= cells.subrange(0, k));
    assert(cells.subrange(0, k + 1).last() == cells[k]);
}

proof fn lemma_connectivity_count_prefix(cells: Seq<Seq<i64>>, k: int)
    requires
        0 <= k <= cells.len(),
    ensures
        connectivity_count(cells.subrange(0, k)) <= connectivity_count(cells),
    decreases cells.len() - k,
{
    if k == cells.len() {
        assert(cells.subrange(0, k) =~= cells);
    } else {
        lemma_connectivity_count_step(cells, k);
        lemma_connectivity_count_prefix(cells, k + 1);
    }
}

impl View for CellArray {
    type V = Seq<Seq<i64>>;

    closed spec fn view(&self) -> Seq<Seq<i64>> {
        self.cells@.map_values(|cell: Vec<i64>| cell@)
    }
}

impl CellArray {
    /// Counts fit the signed 64-bit counters the interface reports.
    pub closed spec fn wf(&self) -> bool {
        &&& self.cells@.len() <= i64::MAX
        &&& connectivity_count(self@) <= i64::MAX
    }

    /// An empty cell array.
    pub fn new() -> (cells: Self)
        ensures
            cells.wf(),
            cells@ == Seq::<Seq<i64>>::empty(),
    {
        let cells = CellArray { cells: Vec::new() };
        proof {
            assert(cells@ =~= Seq::<Seq<i64>>::empty());
        }
        cells
    }

    /// Appends a cell connecting the given point ids and returns its cell
    /// id, which is its position in the array.
    pub fn insert_next_cell(&mut self, point_ids: &[i64]) -> (cell_id: i64)
        requires
            old(self).wf(),
            old(self)@.len() < i64::MAX,
            connectivity_count(old(self)@) + point_ids@.len() <= i64::MAX,
        ensures
            final(self).wf(),
            cell_id == old(self)@.len(),
            final(self)@ == old(self)@.push(point_ids@),
    {
        let cell_id = self.cells.len() as i64;
        let cell = vstd::slice::slice_to_vec(point_ids);
        self.cells.push(cell);
        proof {
            assert(self@ =~= old(self)@.push(point_ids@));
            assert(self@.drop_last() =~= old(self)@);
            lemma_connectivity_count_nonneg(old(self)@);
        }
        cell_id
    }

    /// The number of cells stored.
    pub fn get_number_of_cells(&self) -> (n: i64)
        requires
            self.wf(),
        ensures
            n == self@.len(),
    {
        self.cells.len() as i64
    }

    /// The total number of point ids across all cells; two-point beams,
    /// for example, contribute two ids each.
    pub fn get_number_of_connectivity_ids(&self) -> (n: i64)
        requires
            self.wf(),
        ensures
            n == connectivity_count(self@),
    {
        let n = self.cells.len();
        let mut total: i64 = 0;
        let mut i: usize = 0;
        while i < n
            invariant
                n == self.cells@.len(),
                0 <= i <= n,
                self.wf(),
                total == connectivity_count(self@.subrange(0, i as int)),
            decreases n - i,
        {
            proof {
                lemma_connectivity_count_step(self@, i as int);
                lemma_connectivity_count_prefix(self@, i as int + 1);
                lemma_connectivity_count_nonneg(self@.subrange(0, i as int));
            }
            total = total + self.cells[i].len() as i64;
            i += 1;
        }
        proof {
            assert(self@.subrange(0, n as int) =~= self@);
        }
        total
    }

    /// The point ids of one cell: present exactly when the cell id is in
    /// range and the cell connects at least one point.
    pub fn get_cell(&self, cell_id: i64) -> (result: Option<Vec<i64>>)
        requires
            self.wf(),
        ensures
            (match result {
                Some(point_ids) => 0 <= cell_id < self@.len() && self@[cell_id as int].len() > 0
                    && point_ids@ == self@[cell_id as int],
                None => !(0 <= cell_id < self@.len()) || self@[cell_id as int].len() == 0,
            }),
    {
        if cell_id < 0 || cell_id >= self.cells.len() as i64 {
            return None;
        }
        let cell = &self.cells[cell_id as usize];
        if cell.len() == 0 {
            return None;
        }
        Some(vstd::slice::slice_to_vec(cell.as_slice()))
    }

    /// Drops all cells, keeping whatever storage is reserved.
    pub fn reset(&mut self)
        ensures
            final(self).wf(),
            final(self)@ == Seq::<Seq<i64>>::empty(),
    {
        self.cells.clear();
        proof {
            assert(self@ =~= Seq::<Seq<i64>>::empty());
        }
    }

    /// Drops all cells and releases their storage.
    pub fn initialize(&mut self)
        ensures
            final(self).wf(),
            final(self)@ == Seq::<Seq<i64>>::empty(),
    {
        self.cells = Vec::new();
        proof {
            assert(self@ =~= Seq::<Seq<i64>>::empty());
        }
    }

    /// An iterator over all cells, starting at cell id `0`.
    pub fn iter(&self) -> (iterator: CellArrayIterator<'_>)
        requires
            self.wf(),
        ensures
            iterator.wf(),
            iterator.source() == self@,
            iterator.position() == 0,
    {
        CellArrayIterator { cell_array: self, current: 0, total: self.get_number_of_cells() }
    }
}

/// Walks the cells of a `CellArray` in order of cell id.
pub struct CellArrayIterator<'a> {
    cell_array: &'a CellArray,
    current: i64,
    total: i64,
}

impl<'a> CellArrayIterator<'a> {
    /// The cells being walked.
    pub closed spec fn source(&self) -> Seq<Seq<i64>> {
        self.cell_array@
    }

    /// The cell id the next step will visit.
    pub closed spec fn position(&self) -> int {
        self.current as int
    }

    /// The iterator's bound matches its source and its position lies
    /// within it.
    pub closed spec fn wf(&self) -> bool {
        &&& self.cell_array.wf()
        &&& self.total == self.cell_array@.len()
        &&& 0 <= self.current <= self.total
    }

    /// The next cell id with its point ids, or nothing once every cell is
    /// visited or an empty cell is reached.
    pub fn next(&mut self) -> (item: Option<(i64, Vec<i64>)>)
        requires
            old(self).wf(),
        ensures
            final(self).wf(),
            final(self).source() == old(self).source(),
            (match item {
                Some(entry) => {
                    &&& old(self).position() < old(self).source().len()
                    &&& old(self).source()[old(self).position()].len() > 0
                    &&& entry.0 == old(self).position()
                    &&& entry.1@ == old(self).source()[old(self).position()]
                    &&& final(self).position() == old(self).position() + 1
                },
                None => {
                    &&& (old(self).position() == old(self).source().len() || old(
                        self,
                    ).source()[old(self).position()].len() == 0)
                    &&& final(self).position() == (if old(self).position() < old(
                        self,
                    ).source().len() {
                        old(self).position() + 1
                    } else {
                        old(self).position()
                    })
                },
            }),
    {
        if self.current < self.total {
            let cell_id = self.current;
            self.current = self.current + 1;
            match self.cell_array.get_cell(cell_id) {
                Some(point_ids) => Some((cell_id, point_ids)),
                None => None,
            }
        } else {
            None
        }
    }
}

} // verus!
