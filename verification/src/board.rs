//! The grid of cells that holds the pieces.

use vstd::prelude::*;

use crate::pieces::Piece;

verus! {

/// A cell of the board by row and column, both counted from zero.
#[derive(Debug, Copy, Clone, PartialEq, Eq, Structural)]
pub struct Position {
    pub row: usize,
    pub col: usize,
}

/// A dense grid of `rows` by `cols` cells, stored row by row.
pub struct Board {
    pub data: Vec<Option<Piece>>,
    pub rows: usize,
    pub cols: usize,
}

/// One if the cell holds a piece of rank `rank`, else zero.
pub open spec fn held(cell: Option<Piece>, rank: Piece) -> nat {
    if cell == Some(rank) {
        1
    } else {
        0
    }
}

/// How many cells of `cells` hold a piece of rank `rank`.
pub open spec fn count_of(cells: Seq<Option<Piece>>, rank: Piece) -> nat
    decreases cells.len(),
{
    if cells.len() == 0 {
        0
    } else {
        count_of(cells.drop_last(), rank) + held(cells.last(), rank)
    }
}

/// Cells that are all empty hold no piece of any rank.
pub proof fn lemma_count_vacant(cells: Seq<Option<Piece>>, rank: Piece)
    requires
        forall|i: int| 0 <= i < cells.len() ==> cells[i] is None,
    ensures
        count_of(cells, rank) == 0,
    decreases cells.len(),
{
    if cells.len() > 0 {
        lemma_count_vacant(cells.drop_last(), rank);
    }
}

/// Overwriting one cell changes a rank's count by what left and what came.
pub proof fn lemma_count_update(
    cells: Seq<Option<Piece>>,
    i: int,
    occupant: Option<Piece>,
    rank: Piece,
)
    requires
        0 <= i < cells.len(),
    ensures
        count_of(cells.update(i, occupant), rank) + held(cells[i], rank) == count_of(cells, rank)
            + held(occupant, rank),
    decreases cells.len(),
{
    let updated = cells.update(i, occupant);
    if i == cells.len() - 1 {
        assert(updated.drop_last() =~= cells.drop_last());
    } else {
        assert(updated.drop_last() =~= cells.drop_last().update(i, occupant));
        lemma_count_update(cells.drop_last(), i, occupant, rank);
    }
}

/// A cell that holds a piece of a rank counts for that rank.
pub proof fn lemma_count_occupied(cells: Seq<Option<Piece>>, i: int, rank: Piece)
    requires
        0 <= i < cells.len(),
        cells[i] == Some(rank),
    ensures
        count_of(cells, rank) >= 1,
{
    lemma_count_update(cells, i, None, rank);
}

impl View for Board {
    type V = Seq<Option<Piece>>;

    /// The cells in row-major order.
    open spec fn view(&self) -> Seq<Option<Piece>> {
        self.data@
    }
}

impl Board {
    /// The grid has exactly one stored cell for each position.
    pub open spec fn wf(&self) -> bool {
        self.data@.len() == self.rows * self.cols
    }

    /// Whether `p` names a cell of this board.
    pub open spec fn contains(&self, p: Position) -> bool {
        p.row < self.rows && p.col < self.cols
    }

    /// Where the cell `p` stands in the row-major order.
    pub open spec fn index_of(&self, p: Position) -> int {
        self.cols * p.row + p.col
    }

    /// What stands on the cell `p`.
    pub open spec fn at(&self, p: Position) -> Option<Piece> {
        self@[self.index_of(p)]
    }

    /// The cells of the rows from `row_lo` up to, not including, `row_hi`.
    pub open spec fn rows_between(&self, row_lo: int, row_hi: int) -> Seq<Option<Piece>> {
        self@.subrange(self.cols * row_lo, self.cols * row_hi)
    }

    /// An in-range position has an in-range index.
    pub proof fn lemma_index_in_range(&self, p: Position)
        requires
            self.wf(),
            self.contains(p),
        ensures
            0 <= self.index_of(p) < self@.len(),
    {
        assert(self.cols * p.row + p.col < self.rows * self.cols) by (nonlinear_arith)
            requires
                p.row < self.rows,
                p.col < self.cols,
        ;
    }

    /// An empty board of the given extent.
    pub fn new(rows: usize, cols: usize) -> (b: Board)
        requires
            rows * cols <= usize::MAX,
        ensures
            b.wf(),
            b.rows == rows,
            b.cols == cols,
            forall|i: int| 0 <= i < rows * cols ==> b@[i] == None::<Piece>,
    {
        let n: usize = rows * cols;
        let mut data: Vec<Option<Piece>> = Vec::new();
        let mut i: usize = 0;
        while i < n
            invariant
                i <= n,
                data@.len() == i,
                forall|k: int| 0 <= k < i ==> data@[k] == None::<Piece>,
            decreases n - i,
        {
            data.push(None);
            i += 1;
        }
        Board { data, rows, cols }
    }

    /// Row-major index of a cell.
    pub fn position_to_index(&self, p: Position) -> (i: usize)
        requires
            self.wf(),
            self.contains(p),
        ensures
            i == self.index_of(p),
            i < self@.len(),
    {
        proof {
            self.lemma_index_in_range(p);
            assert(0 <= self.cols * p.row) by (nonlinear_arith);
            assert(self.data@.len() == self.data.len());
        }
        self.cols * p.row + p.col
    }

    /// The occupant of a cell.
    pub fn get_piece(&self, p: Position) -> (piece: Option<Piece>)
        requires
            self.wf(),
            self.contains(p),
        ensures
            piece == self.at(p),
    {
        let i: usize = self.position_to_index(p);
        self.data[i]
    }

    /// Mutable access to the occupant of a cell.
    pub fn get_piece_mut(&mut self, p: Position) -> (cell: &mut Option<Piece>)
        requires
            old(self).wf(),
            old(self).contains(p),
        ensures
            *cell == old(self).at(p),
            final(self).wf(),
            final(self).rows == old(self).rows,
            final(self).cols == old(self).cols,
            final(self)@ == old(self)@.update(old(self).index_of(p), *final(cell)),
    {
        let i: usize = self.position_to_index(p);
        &mut self.data[i]
    }

    /// Overwrites a cell, whatever stood there.
    pub fn set_piece(&mut self, p: Position, occupant: Option<Piece>)
        requires
            old(self).wf(),
            old(self).contains(p),
        ensures
            final(self).wf(),
            final(self).rows == old(self).rows,
            final(self).cols == old(self).cols,
            final(self)@ == old(self)@.update(old(self).index_of(p), occupant),
    {
        let i: usize = self.position_to_index(p);
        self.data[i] = occupant;
    }

    /// Tallies the pieces of rank `rank` in the rows from `row_lo` up to, not
    /// including, `row_hi`.
    pub fn count_by_rank(&self, rank: Piece, row_lo: usize, row_hi: usize) -> (n: usize)
        requires
            self.wf(),
            row_lo <= row_hi <= self.rows,
        ensures
            n == count_of(self.rows_between(row_lo as int, row_hi as int), rank),
    {
        proof {
            assert(self.data@.len() == self.data.len());
            assert(0 <= self.cols * row_lo <= self.cols * row_hi <= self.rows * self.cols)
                by (nonlinear_arith)
                requires
                    row_lo <= row_hi <= self.rows,
            ;
        }
        let start: usize = self.cols * row_lo;
        let end: usize = self.cols * row_hi;
        let mut n: usize = 0;
        let mut i: usize = start;
        while i < end
            invariant
                start <= i <= end <= self.data@.len(),
                n == count_of(self@.subrange(start as int, i as int), rank),
                n <= i - start,
            decreases end - i,
        {
            proof {
                assert(self@.subrange(start as int, i + 1).drop_last() =~= self@.subrange(
                    start as int,
                    i as int,
                ));
            }
            if let Some(piece) = self.data[i] {
                if piece == rank {
                    n += 1;
                }
            }
            i += 1;
        }
        n
    }

    /// Tells whether no piece stands in the rows from `row_lo` up to, not
    /// including, `row_hi`.
    pub fn is_vacant(&self, row_lo: usize, row_hi: usize) -> (vacant: bool)
        requires
            self.wf(),
            row_lo <= row_hi <= self.rows,
        ensures
            vacant <==> forall|i: int|
                self.cols * row_lo <= i < self.cols * row_hi ==> (#[trigger] self@[i]) is None,
    {
        proof {
            assert(self.data@.len() == self.data.len());
            assert(0 <= self.cols * row_lo <= self.cols * row_hi <= self.rows * self.cols)
                by (nonlinear_arith)
                requires
                    row_lo <= row_hi <= self.rows,
            ;
        }
        let start: usize = self.cols * row_lo;
        let end: usize = self.cols * row_hi;
        let mut i: usize = start;
        while i < end
            invariant
                start == self.cols * row_lo,
                end == self.cols * row_hi,
                start <= i <= end <= self.data@.len(),
                forall|k: int| start <= k < i ==> (#[trigger] self@[k]) is None,
            decreases end - i,
        {
            if self.data[i].is_some() {
                assert(self@[i as int] is Some);
                return false;
            }
            i += 1;
        }
        true
    }
}

} // verus!
