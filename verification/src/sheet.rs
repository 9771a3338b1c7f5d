//! The cell grid: stable cell identities in a row-major layout.
//!
//! A sheet associates grid positions with cells. Cells have stable
//! identities: resizing keeps the identity at every position that exists
//! both before and after, and allocates fresh identities for newly created
//! positions. A cell, once allocated, is never forgotten, so an identity
//! handed out earlier stays resolvable; a cell may carry the identity of the
//! run currently bound to it.

use vstd::prelude::*;

use vstd::arithmetic::div_mod::lemma_fundamental_div_mod_converse;

use crate::runner::RunId;

verus! {

/// The width a resize request actually produces: a requested width of 0
/// becomes 1, since the row-major layout needs at least one column.
pub open spec fn effective_columns(columns: u32) -> int {
    if columns == 0 {
        1
    } else {
        columns as int
    }
}

/// What position `j` of a layout freshly resized from `ol` holds: the old
/// identity where the position existed before, a freshly allocated identity
/// (at least `old_seed`, below `cur_seed`) where it did not.
pub(crate) open spec fn resized_ok(
    nl: Seq<CellId>,
    ol: Seq<CellId>,
    old_rows: int,
    old_cols: int,
    new_cols: int,
    old_seed: u32,
    cur_seed: u32,
    j: int,
) -> bool {
    let r = j / new_cols;
    let c = j % new_cols;
    if r < old_rows && c < old_cols {
        nl[j] == ol[r * old_cols + c]
    } else {
        old_seed <= nl[j].spec_raw() < cur_seed
    }
}

/// The stable identity of one grid cell.
#[derive(Debug, Clone, Copy, PartialEq, Eq, Structural)]
pub struct CellId {
    raw: u32,
}

impl CellId {
    pub closed spec fn spec_raw(&self) -> u32 {
        self.raw
    }
}

/// One cell: its identity and the run currently bound to it, if any.
#[derive(Debug, Clone, Copy, PartialEq, Eq, Structural)]
pub struct Cell {
    pub id: CellId,
    pub invocation: Option<RunId>,
}

/// The cell at a row-major position of a layout.
pub open spec fn grid_at(layout: Seq<CellId>, cols: int, r: int, c: int) -> CellId {
    layout[r * cols + c]
}

/// A 2-D grid of cells. See the module description.
#[derive(Debug)]
pub struct Sheet {
    id_seed: u32,
    // Always at least 1, which keeps the row-major layout well defined.
    columns: u32,
    cell_layout: Vec<CellId>,
    cells: Vec<Cell>,
}

impl Sheet {
    pub closed spec fn spec_columns(&self) -> int {
        self.columns as int
    }

    pub closed spec fn spec_layout(&self) -> Seq<CellId> {
        self.cell_layout@
    }

    pub closed spec fn spec_cells(&self) -> Seq<Cell> {
        self.cells@
    }

    /// The next identity value to be allocated; every allocated identity is
    /// below it.
    pub closed spec fn spec_seed(&self) -> u32 {
        self.id_seed
    }

    pub open spec fn spec_rows(&self) -> int {
        self.spec_layout().len() as int / self.spec_columns()
    }

    /// The identity at a position, when the position is on the grid.
    pub open spec fn spec_cell_at(&self, row: int, col: int) -> Option<CellId> {
        if 0 <= row < self.spec_rows() && 0 <= col < self.spec_columns() {
            Some(grid_at(self.spec_layout(), self.spec_columns(), row, col))
        } else {
            None
        }
    }

    /// The sheet's invariant: at least one column, a whole number of rows,
    /// one recorded cell per allocated identity in allocation order, and
    /// every identity on the grid allocated.
    pub closed spec fn wf(&self) -> bool {
        &&& self.columns >= 1
        &&& self.cell_layout@.len() == self.spec_rows() * self.spec_columns()
        &&& self.spec_rows() <= u32::MAX as int
        &&& self.cells@.len() == self.id_seed as int
        &&& forall|i: int|
            0 <= i < self.cells@.len() ==> (#[trigger] self.cells@[i]).id.spec_raw() as int == i
        &&& forall|i: int|
            0 <= i < self.cell_layout@.len() ==> (#[trigger] self.cell_layout@[i]).spec_raw()
                < self.id_seed
    }

    /// An empty sheet: one column, no rows, no identities allocated yet.
    pub fn new() -> (r: Sheet)
        ensures
            r.wf(),
            r.spec_columns() == 1,
            r.spec_rows() == 0,
            r.spec_seed() == 0,
    {
        let sheet = Sheet { id_seed: 0, columns: 1, cell_layout: Vec::new(), cells: Vec::new() };
        proof {
            assert(sheet.cell_layout@.len() == 0);
            assert(sheet.spec_rows() == 0);
        }
        sheet
    }

    /// How many rows the grid has.
    pub fn rows(&self) -> (r: u32)
        requires
            self.wf(),
        ensures
            r as int == self.spec_rows(),
    {
        (self.cell_layout.len() / (self.columns as usize)) as u32
    }

    /// How many columns the grid has; at least 1.
    pub fn columns(&self) -> (r: u32)
        requires
            self.wf(),
        ensures
            r as int == self.spec_columns(),
            r >= 1,
    {
        self.columns
    }

    /// The identity at a position, or `None` off the grid.
    pub fn cell_at(&self, row: u32, col: u32) -> (r: Option<CellId>)
        requires
            self.wf(),
        ensures
            r == self.spec_cell_at(row as int, col as int),
    {
        if col >= self.columns {
            return None;
        }
        proof {
            assert(row as int * (self.columns as int) <= u32::MAX as int * u32::MAX as int)
                by (nonlinear_arith)
                requires
                    row <= u32::MAX,
                    self.columns <= u32::MAX;
        }
        let index = (row as u64) * (self.columns as u64) + (col as u64);
        if index < self.cell_layout.len() as u64 {
            let id = self.cell_layout[index as usize];
            proof {
                let rows = self.spec_rows();
                let cols = self.spec_columns();
                assert((row as int) < rows) by (nonlinear_arith)
                    requires
                        cols >= 1,
                        0 <= (col as int) < cols,
                        row as int * cols + (col as int) < rows * cols;
            }
            Some(id)
        } else {
            proof {
                let rows = self.spec_rows();
                let cols = self.spec_columns();
                if (row as int) < rows {
                    assert(row as int * cols + (col as int) < rows * cols) by (nonlinear_arith)
                        requires
                            cols >= 1,
                            0 <= (col as int) < cols,
                            0 <= (row as int) < rows;
                }
            }
            None
        }
    }

    /// The cell an identity resolves to, or `None` for an identity this
    /// sheet never allocated.
    pub fn get_cell(&self, id: CellId) -> (r: Option<&Cell>)
        requires
            self.wf(),
        ensures
            id.spec_raw() < self.spec_seed() ==> (r matches Some(cell) && cell.id == id && *cell
                == self.spec_cells()[id.spec_raw() as int]),
            id.spec_raw() >= self.spec_seed() ==> r is None,
    {
        let index = self.raw_of(id) as usize;
        if index < self.cells.len() {
            Some(&self.cells[index])
        } else {
            None
        }
    }

    /// Bind a run (or none) to a cell; reports whether the identity
    /// resolved. Nothing else about the sheet changes.
    pub fn bind_run(&mut self, id: CellId, run: Option<RunId>) -> (r: bool)
        requires
            old(self).wf(),
        ensures
            final(self).wf(),
            r == (id.spec_raw() < old(self).spec_seed()),
            final(self).spec_layout() == old(self).spec_layout(),
            final(self).spec_columns() == old(self).spec_columns(),
            final(self).spec_seed() == old(self).spec_seed(),
            final(self).spec_cells().len() == old(self).spec_cells().len(),
            r ==> final(self).spec_cells() == old(self).spec_cells().update(
                id.spec_raw() as int,
                Cell { id, invocation: run },
            ),
            !r ==> final(self).spec_cells() == old(self).spec_cells(),
    {
        let index = self.raw_of(id) as usize;
        if index < self.cells.len() {
            let cell = &mut self.cells[index];
            cell.invocation = run;
            proof {
                assert(self.cells@[index as int].id == id);
                assert(self.cells@ =~= old(self).cells@.update(
                    index as int,
                    Cell { id, invocation: run },
                ));
            }
            true
        } else {
            false
        }
    }

    /// The raw value of an identity (identities are opaque to callers).
    fn raw_of(&self, id: CellId) -> (r: u32)
        ensures
            r == id.spec_raw(),
    {
        id.raw
    }

    /// Resize the grid to `rows` by `columns` (a requested width of 0
    /// becomes 1, so the layout stays well defined). Every position on both
    /// the old and the new grid keeps its cell identity; every newly created
    /// position is given a fresh identity; cells already allocated are all
    /// kept, so identities handed out earlier stay resolvable.
    pub fn resize(&mut self, rows: u32, columns: u32)
        requires
            old(self).wf(),
            old(self).spec_seed() + rows as int * effective_columns(columns) <= u32::MAX as int,
        ensures
            final(self).wf(),
            final(self).spec_columns() == effective_columns(columns),
            final(self).spec_rows() == rows as int,
            final(self).spec_seed() >= old(self).spec_seed(),
            forall|r: int, c: int|
                (0 <= r < rows as int && 0 <= c < effective_columns(columns)
                    && r < old(self).spec_rows() && c < old(self).spec_columns())
                    ==> #[trigger] final(self).spec_cell_at(r, c) == old(self).spec_cell_at(r, c),
            forall|r: int, c: int|
                (0 <= r < rows as int && 0 <= c < effective_columns(columns)
                    && !(r < old(self).spec_rows() && c < old(self).spec_columns()))
                    ==> ((#[trigger] final(self).spec_cell_at(r, c)) matches Some(id)
                        && id.spec_raw() >= old(self).spec_seed()),
            forall|i: int|
                0 <= i < old(self).spec_cells().len() ==> #[trigger] final(self).spec_cells()[i]
                    == old(self).spec_cells()[i],
    {
        let new_cols: u32 = if columns == 0 {
            1
        } else {
            columns
        };
        let old_cols: u32 = self.columns;
        let old_rows: u32 = self.rows();
        let ghost ol = self.cell_layout@;
        let ghost old_seed = self.id_seed;
        let mut new_layout: Vec<CellId> = Vec::new();
        let mut r: u32 = 0;
        while r < rows
            invariant
                self.wf(),
                self.columns == old(self).columns,
                self.cell_layout@ == ol,
                ol == old(self).cell_layout@,
                old_seed == old(self).id_seed,
                old(self).cells@.len() == old_seed as int,
                old_cols as int == old(self).spec_columns(),
                old_rows as int == old(self).spec_rows(),
                new_cols as int == effective_columns(columns),
                new_cols >= 1,
                r <= rows,
                old_seed as int + rows as int * new_cols as int <= u32::MAX as int,
                old_seed <= self.id_seed,
                self.id_seed as int <= old_seed as int + r as int * new_cols as int,
                forall|i: int|
                    0 <= i < old(self).cells@.len() ==> #[trigger] self.cells@[i]
                        == old(self).cells@[i],
                new_layout@.len() == r as int * new_cols as int,
                forall|j: int|
                    0 <= j < new_layout@.len() ==> #[trigger] resized_ok(
                        new_layout@,
                        ol,
                        old_rows as int,
                        old_cols as int,
                        new_cols as int,
                        old_seed,
                        self.id_seed,
                        j,
                    ),
            decreases rows - r,
        {
            proof {
                assert(r as int * new_cols as int + new_cols as int <= rows as int
                    * new_cols as int) by (nonlinear_arith)
                    requires
                        (r as int) < rows as int,
                        new_cols >= 1;
            }
            let mut c: u32 = 0;
            while c < new_cols
                invariant
                    self.wf(),
                    self.columns == old(self).columns,
                    self.cell_layout@ == ol,
                    ol == old(self).cell_layout@,
                    old_seed == old(self).id_seed,
                    old(self).cells@.len() == old_seed as int,
                    old_cols as int == old(self).spec_columns(),
                    old_rows as int == old(self).spec_rows(),
                    new_cols as int == effective_columns(columns),
                    new_cols >= 1,
                    r < rows,
                    c <= new_cols,
                    old_seed as int + rows as int * new_cols as int <= u32::MAX as int,
                    r as int * new_cols as int + new_cols as int <= rows as int
                        * new_cols as int,
                    old_seed <= self.id_seed,
                    self.id_seed as int <= old_seed as int + r as int * new_cols as int
                        + c as int,
                    forall|i: int|
                        0 <= i < old(self).cells@.len() ==> #[trigger] self.cells@[i]
                            == old(self).cells@[i],
                    new_layout@.len() == r as int * new_cols as int + c as int,
                    forall|j: int|
                        0 <= j < new_layout@.len() ==> #[trigger] resized_ok(
                            new_layout@,
                            ol,
                            old_rows as int,
                            old_cols as int,
                            new_cols as int,
                            old_seed,
                            self.id_seed,
                            j,
                        ),
                decreases new_cols - c,
            {
                let ghost nl0 = new_layout@;
                let ghost seed0 = self.id_seed;
                let ghost j0 = new_layout@.len() as int;
                let ghost rows_i = old_rows as int;
                let ghost cols_i = old_cols as int;
                let ghost nc = new_cols as int;
                proof {
                    // The new position's flat index decomposes back into
                    // exactly this row and column.
                    lemma_fundamental_div_mod_converse(j0, nc, r as int, c as int);
                }
                if r < old_rows && c < old_cols {
                    proof {
                        assert(r as int * cols_i + (c as int) < rows_i * cols_i)
                            by (nonlinear_arith)
                            requires
                                (r as int) < rows_i,
                                0 <= (c as int) < cols_i,
                                cols_i >= 1;
                        assert(r as int * cols_i <= u32::MAX as int * u32::MAX as int)
                            by (nonlinear_arith)
                            requires
                                r <= u32::MAX,
                                cols_i <= u32::MAX as int;
                        assert(ol.len() == rows_i * cols_i);
                    }
                    let idx = (r as u64) * (old_cols as u64) + (c as u64);
                    let n = self.cell_layout.len();
                    proof {
                        assert(idx as int == r as int * cols_i + c as int);
                        assert(idx < n as u64);
                    }
                    new_layout.push(self.cell_layout[idx as usize]);
                    proof {
                        assert(new_layout@[j0] == ol[r as int * cols_i + c as int]);
                        assert(resized_ok(
                            new_layout@,
                            ol,
                            rows_i,
                            cols_i,
                            nc,
                            old_seed,
                            self.id_seed,
                            j0,
                        ));
                    }
                } else {
                    proof {
                        assert(r as int * nc + (c as int) < rows as int * nc)
                            by (nonlinear_arith)
                            requires
                                (r as int) < rows as int,
                                0 <= (c as int) < nc,
                                nc >= 1;
                    }
                    let id = self.create_cell();
                    new_layout.push(id);
                    proof {
                        assert(new_layout@[j0].spec_raw() == seed0);
                        assert(resized_ok(
                            new_layout@,
                            ol,
                            rows_i,
                            cols_i,
                            nc,
                            old_seed,
                            self.id_seed,
                            j0,
                        ));
                    }
                }
                proof {
                    assert forall|j: int| 0 <= j < new_layout@.len() implies #[trigger] resized_ok(
                        new_layout@,
                        ol,
                        rows_i,
                        cols_i,
                        nc,
                        old_seed,
                        self.id_seed,
                        j,
                    ) by {
                        if j < j0 {
                            assert(resized_ok(nl0, ol, rows_i, cols_i, nc, old_seed, seed0, j));
                            assert(new_layout@[j] == nl0[j]);
                        } else {
                            assert(j == j0);
                        }
                    }
                }
                c = c + 1;
            }
            r = r + 1;
            proof {
                assert(new_layout@.len() == r as int * new_cols as int) by (nonlinear_arith)
                    requires
                        new_layout@.len() == (r as int - 1) * new_cols as int
                            + new_cols as int;
            }
        }
        self.columns = new_cols;
        self.cell_layout = new_layout;
        proof {
            let nc = new_cols as int;
            let rows_i = old_rows as int;
            let cols_i = old_cols as int;
            lemma_fundamental_div_mod_converse(
                self.cell_layout@.len() as int,
                nc,
                rows as int,
                0,
            );
            assert(self.spec_rows() == rows as int);
            assert forall|i: int| 0 <= i < self.cell_layout@.len() implies (
            #[trigger] self.cell_layout@[i]).spec_raw() < self.id_seed by {
                assert(resized_ok(
                    self.cell_layout@,
                    ol,
                    rows_i,
                    cols_i,
                    nc,
                    old_seed,
                    self.id_seed,
                    i,
                ));
                let jr = i / nc;
                let jc = i % nc;
                if jr < rows_i && jc < cols_i {
                    assert(0 <= jr && 0 <= jc < nc) by {
                        vstd::arithmetic::div_mod::lemma_mod_pos_bound(i, nc);
                        vstd::arithmetic::div_mod::lemma_div_pos_is_pos(i, nc);
                    }
                    assert(jr * cols_i + jc < rows_i * cols_i) by (nonlinear_arith)
                        requires
                            0 <= jr < rows_i,
                            0 <= jc < cols_i,
                            cols_i >= 1;
                    assert(ol[jr * cols_i + jc].spec_raw() < old_seed);
                }
            }
            assert forall|rr: int, cc: int|
                0 <= rr < rows as int && 0 <= cc < nc && rr < rows_i && cc
                    < cols_i implies #[trigger] self.spec_cell_at(rr, cc)
                    == old(self).spec_cell_at(rr, cc) by {
                let j = rr * nc + cc;
                assert(0 <= j && j < rows as int * nc) by (nonlinear_arith)
                    requires
                        j == rr * nc + cc,
                        0 <= rr < rows as int,
                        0 <= cc < nc,
                        nc >= 1;
                lemma_fundamental_div_mod_converse(j, nc, rr, cc);
                assert(resized_ok(
                    self.cell_layout@,
                    ol,
                    rows_i,
                    cols_i,
                    nc,
                    old_seed,
                    self.id_seed,
                    j,
                ));
                assert(rr * cols_i + cc < rows_i * cols_i) by (nonlinear_arith)
                    requires
                        0 <= rr < rows_i,
                        0 <= cc < cols_i,
                        cols_i >= 1;
            }
            assert forall|rr: int, cc: int|
                0 <= rr < rows as int && 0 <= cc < nc && !(rr < rows_i && cc
                    < cols_i) implies ((#[trigger] self.spec_cell_at(rr, cc)) matches Some(id)
                && id.spec_raw() >= old_seed) by {
                let j = rr * nc + cc;
                assert(0 <= j && j < rows as int * nc) by (nonlinear_arith)
                    requires
                        j == rr * nc + cc,
                        0 <= rr < rows as int,
                        0 <= cc < nc,
                        nc >= 1;
                lemma_fundamental_div_mod_converse(j, nc, rr, cc);
                assert(resized_ok(
                    self.cell_layout@,
                    ol,
                    rows_i,
                    cols_i,
                    nc,
                    old_seed,
                    self.id_seed,
                    j,
                ));
            }
        }
    }

    /// Allocate a fresh cell: the next identity, with no run bound.
    fn create_cell(&mut self) -> (r: CellId)
        requires
            old(self).wf(),
            old(self).id_seed < u32::MAX,
        ensures
            final(self).wf(),
            r.spec_raw() == old(self).spec_seed(),
            final(self).spec_seed() == old(self).spec_seed() + 1,
            final(self).spec_layout() == old(self).spec_layout(),
            final(self).spec_columns() == old(self).spec_columns(),
            final(self).spec_cells() == old(self).spec_cells().push(
                Cell { id: r, invocation: None },
            ),
    {
        let id = CellId { raw: self.id_seed };
        self.id_seed = self.id_seed + 1;
        self.cells.push(Cell { id, invocation: None });
        id
    }
}

} // verus!
