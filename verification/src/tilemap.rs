//! The brick grid that physics and weapons query.

use vstd::prelude::*;

verus! {

/// A grid of `rows` by `cols` cells in row-major order; a cell that is not 0 is a brick.
pub ghost struct Grid {
    pub rows: int,
    pub cols: int,
    pub cells: Seq<u8>,
}

impl Grid {
    /// The grid has a cell for every position, and no more.
    pub open spec fn wf(self) -> bool {
        &&& 0 <= self.rows
        &&& 0 <= self.cols
        &&& self.cells.len() == self.rows * self.cols
    }

    /// Whether (`col`, `row`) lies on the grid.
    pub open spec fn inside(self, col: int, row: int) -> bool {
        0 <= row < self.rows && 0 <= col < self.cols
    }

    /// Whether the cell at a position on the grid is a brick.
    pub open spec fn brick(self, col: int, row: int) -> bool {
        self.cells[row * self.cols + col] != 0
    }

    /// Whether a position is solid: every brick is, and so is everything off the grid.
    pub open spec fn solid(self, col: int, row: int) -> bool {
        !self.inside(col, row) || self.brick(col, row)
    }
}

/// A position on the grid has an index among the cells.
pub proof fn lemma_cell_index(rows: int, cols: int, col: int, row: int)
    requires
        0 <= row < rows,
        0 <= col < cols,
    ensures
        0 <= row * cols,
        0 <= row * cols + col < rows * cols,
{
    assert(0 <= row * cols) by (nonlinear_arith)
        requires
            0 <= row,
            0 <= cols,
    ;
    assert(row * cols + cols <= rows * cols) by (nonlinear_arith)
        requires
            row + 1 <= rows,
            0 <= cols,
    ;
}

/// A map of bricks as the physics sees it.
pub trait TileMap {
    /// The grid that this map stands for.
    spec fn grid(&self) -> Grid;

    fn rows(&self) -> (r: i32)
        ensures
            r == self.grid().rows,
    ;

    fn cols(&self) -> (c: i32)
        ensures
            c == self.grid().cols,
    ;

    /// Whether the cell at a position on the grid is a brick.
    fn is_brick_at(&self, col: i32, row: i32) -> (b: bool)
        requires
            self.grid().wf(),
            self.grid().inside(col as int, row as int),
        ensures
            b == self.grid().brick(col as int, row as int),
    ;

    /// Whether a position is solid. Everything off the grid is.
    fn is_solid(&self, col: i32, row: i32) -> (b: bool)
        requires
            self.grid().wf(),
        ensures
            b == self.grid().solid(col as int, row as int),
    {
        if row < 0 || col < 0 || row >= self.rows() || col >= self.cols() {
            return true;
        }
        self.is_brick_at(col, row)
    }
}

/// A brick grid held as one flat vector.
#[derive(Clone)]
pub struct FlatTileMap {
    rows: i32,
    cols: i32,
    bricks: Vec<u8>,
}

impl FlatTileMap {
    /// A map of `rows` by `cols` cells over `bricks`. It can be queried where
    /// `bricks` holds exactly one cell for each position: see [`Grid::wf`].
    pub fn new(rows: i32, cols: i32, bricks: Vec<u8>) -> (map: Self)
        ensures
            map.grid() == (Grid { rows: rows as int, cols: cols as int, cells: bricks@ }),
    {
        Self { rows, cols, bricks }
    }

    /// Whether the map holds exactly one cell for each position.
    pub fn is_well_formed(&self) -> (ok: bool)
        ensures
            ok == self.grid().wf(),
    {
        if self.rows < 0 || self.cols < 0 {
            return false;
        }
        assert(self.rows * self.cols <= 0x7fff_ffff * 0x7fff_ffff) by (nonlinear_arith)
            requires
                0 <= self.rows <= 0x7fff_ffff,
                0 <= self.cols <= 0x7fff_ffff,
        ;
        let cells: u64 = (self.rows as u64) * (self.cols as u64);
        self.bricks.len() as u64 == cells
    }

    #[inline]
    fn idx(&self, col: i32, row: i32) -> (i: usize)
        requires
            self.grid().wf(),
            self.grid().inside(col as int, row as int),
        ensures
            i == row * self.grid().cols + col,
            i < self.grid().cells.len(),
    {
        proof {
            lemma_cell_index(self.rows as int, self.cols as int, col as int, row as int);
            assert(self.bricks.len() == self.bricks@.len());
        }
        row as usize * self.cols as usize + col as usize
    }

    /// The cells in row-major order.
    pub fn bricks(&self) -> (cells: &[u8])
        ensures
            cells@ == self.grid().cells,
    {
        self.bricks.as_slice()
    }

    /// The cells in row-major order, open for writing. Their number stays.
    pub fn bricks_mut(&mut self) -> (cells: &mut [u8])
        ensures
            cells@ == old(self).grid().cells,
            final(self).grid() == (Grid { cells: final(cells)@, ..old(self).grid() }),
    {
        self.bricks.as_mut_slice()
    }
}

impl TileMap for FlatTileMap {
    closed spec fn grid(&self) -> Grid {
        Grid { rows: self.rows as int, cols: self.cols as int, cells: self.bricks@ }
    }

    fn rows(&self) -> (r: i32) {
        self.rows
    }

    fn cols(&self) -> (c: i32) {
        self.cols
    }

    fn is_brick_at(&self, col: i32, row: i32) -> (b: bool) {
        self.bricks[self.idx(col, row)] != 0
    }
}

} // verus!
