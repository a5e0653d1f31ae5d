//! A grid of cells stored row by row.

use vstd::prelude::*;

verus! {

/// `C` cells in rows of `COLUMNS`. A cell covers `CELL_WIDTH` by
/// `CELL_HEIGHT` units of the space the grid lies in.
pub struct Grid<
    T,
    const C: usize,
    const CELL_WIDTH: usize,
    const CELL_HEIGHT: usize,
    const COLUMNS: usize,
    const ROWS: usize,
> {
    pub inner: [T; C],
}

/// Position in the row-major storage of the cell in column `index_x` of row
/// `index_y`, in a grid of `columns` columns.
pub open spec fn cell_index(columns: int, index_x: int, index_y: int) -> int {
    index_x + columns * index_y
}

/// Position in the row-major storage of the cell that covers the point
/// `(x, y)`.
pub open spec fn cell_index_at(columns: int, cell_width: int, cell_height: int, x: int, y: int) -> int {
    cell_index(columns, x / cell_width, y / cell_height)
}

impl<
    T,
    const C: usize,
    const CELL_WIDTH: usize,
    const CELL_HEIGHT: usize,
    const COLUMNS: usize,
    const ROWS: usize,
> Grid<T, C, CELL_WIDTH, CELL_HEIGHT, COLUMNS, ROWS> {
    /// Position of a cell in the storage, computed without overflow.
    fn index_of(index_x: usize, index_y: usize) -> (index: usize)
        requires
            cell_index(COLUMNS as int, index_x as int, index_y as int) < C,
        ensures
            index == cell_index(COLUMNS as int, index_x as int, index_y as int),
    {
        assert(0 <= COLUMNS * index_y) by (nonlinear_arith);
        COLUMNS * index_y + index_x
    }

    /// The cell in column `index_x` of row `index_y`, for writing.
    pub fn get_cell_at_index_mut(&mut self, index_x: usize, index_y: usize) -> (cell: &mut T)
        requires
            cell_index(COLUMNS as int, index_x as int, index_y as int) < C,
        ensures
            *cell == old(self).inner@[cell_index(COLUMNS as int, index_x as int, index_y as int)],
            final(self).inner@ == old(self).inner@.update(
                cell_index(COLUMNS as int, index_x as int, index_y as int),
                *final(cell),
            ),
    {
        let index = Self::index_of(index_x, index_y);
        &mut self.inner[index]
    }

    /// The cell in column `index_x` of row `index_y`.
    pub fn get_cell_at_index(&self, index_x: usize, index_y: usize) -> (cell: &T)
        requires
            cell_index(COLUMNS as int, index_x as int, index_y as int) < C,
        ensures
            *cell == self.inner@[cell_index(COLUMNS as int, index_x as int, index_y as int)],
    {
        let index = Self::index_of(index_x, index_y);
        &self.inner[index]
    }

    /// The cell that covers the point `(x, y)`, for writing.
    pub fn get_cell_at_position_mut(&mut self, x: usize, y: usize) -> (cell: &mut T)
        requires
            CELL_WIDTH > 0,
            CELL_HEIGHT > 0,
            cell_index_at(COLUMNS as int, CELL_WIDTH as int, CELL_HEIGHT as int, x as int, y as int) < C,
        ensures
            *cell == old(self).inner@[cell_index_at(
                COLUMNS as int,
                CELL_WIDTH as int,
                CELL_HEIGHT as int,
                x as int,
                y as int,
            )],
            final(self).inner@ == old(self).inner@.update(
                cell_index_at(COLUMNS as int, CELL_WIDTH as int, CELL_HEIGHT as int, x as int, y as int),
                *final(cell),
            ),
    {
        let index_x = x / CELL_WIDTH;
        let index_y = y / CELL_HEIGHT;
        let index = Self::index_of(index_x, index_y);
        &mut self.inner[index]
    }

    /// The cell that covers the point `(x, y)`.
    pub fn get_cell_at_position(&self, x: usize, y: usize) -> (cell: &T)
        requires
            CELL_WIDTH > 0,
            CELL_HEIGHT > 0,
            cell_index_at(COLUMNS as int, CELL_WIDTH as int, CELL_HEIGHT as int, x as int, y as int) < C,
        ensures
            *cell == self.inner@[cell_index_at(
                COLUMNS as int,
                CELL_WIDTH as int,
                CELL_HEIGHT as int,
                x as int,
                y as int,
            )],
    {
        let index_x = x / CELL_WIDTH;
        let index_y = y / CELL_HEIGHT;
        let index = Self::index_of(index_x, index_y);
        &self.inner[index]
    }

    /// The cell at position `index` of the storage.
    pub fn index(&self, index: usize) -> (cell: &T)
        requires
            index < C,
        ensures
            *cell == self.inner@[index as int],
    {
        &self.inner[index]
    }

    /// The cell at position `index` of the storage, for writing.
    pub fn index_mut(&mut self, index: usize) -> (cell: &mut T)
        requires
            index < C,
        ensures
            *cell == old(self).inner@[index as int],
            final(self).inner@ == old(self).inner@.update(index as int, *final(cell)),
    {
        &mut self.inner[index]
    }

    /// A walk over the cells in storage order, starting at the first.
    pub fn iter(&self) -> (walk: GridIterator<'_, T, C, COLUMNS>)
        ensures
            walk.index == 0,
            *walk.cells == self.inner,
    {
        GridIterator { cells: &self.inner, index: 0 }
    }
}

/// A walk over the cells of a grid of `W` columns in storage order.
pub struct GridIterator<'a, T, const C: usize, const W: usize> {
    pub cells: &'a [T; C],
    /// Position of the next cell.
    pub index: usize,
}

impl<'a, T, const C: usize, const W: usize> GridIterator<'a, T, C, W> {
    /// The next cell with its column and its row, or `None` after the last
    /// cell.
    pub fn next(&mut self) -> (item: Option<(usize, usize, &'a T)>)
        requires
            W > 0,
        ensures
            final(self).cells == old(self).cells,
            match item {
                Some((x, y, cell)) => {
                    &&& old(self).index < C
                    &&& final(self).index == old(self).index + 1
                    &&& x == old(self).index % W
                    &&& y == old(self).index / W
                    &&& *cell == old(self).cells@[old(self).index as int]
                },
                None => old(self).index >= C && final(self).index == old(self).index,
            },
    {
        if self.index >= C {
            return None;
        }
        let current_index = self.index;
        self.index = self.index + 1;
        let x = current_index % W;
        let y = current_index / W;
        let cell = &self.cells[current_index];
        Some((x, y, cell))
    }
}

} // verus!
