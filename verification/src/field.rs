//! The playfield: a fixed 10 x 20 grid of cells, stored as a 2-D `ndarray`
//! array indexed by (column, row) with row 0 at the bottom.  The grid's
//! contents are modelled as a sequence of rows (each a sequence of cells),
//! and every access goes through contracts over that model.

use vstd::prelude::*;

use crate::tetromino::TetrominoType;

verus! {

/// Field width in columns.
pub const PLAY_FIELD_WIDTH: usize = 10;

/// Field height in rows.
pub const PLAY_FIELD_HEIGHT: usize = 20;

/// One grid square: empty, or locked by a piece of the recorded kind (kept
/// so a renderer can colour locked blocks).
#[derive(Clone, Copy, Debug, PartialEq, Eq, Structural)]
pub enum Cell {
    Empty,
    Block(TetrominoType),
}

impl Cell {
    /// Whether the square is occupied by a locked block.
    pub open spec fn spec_is_block(&self) -> bool {
        !(self is Empty)
    }

    /// Whether the square is occupied by a locked block.
    #[verifier::when_used_as_spec(spec_is_block)]
    pub fn is_block(&self) -> (r: bool)
        ensures
            r == self.spec_is_block(),
    {
        match self {
            Cell::Empty => false,
            Cell::Block(_) => true,
        }
    }
}

impl Default for Cell {
    fn default() -> (c: Self)
        ensures
            c == Cell::Empty,
    {
        Cell::Empty
    }
}

/// The playfield grid, held as a 2-D `ndarray` array of cells indexed by
/// (column, row).  The array is opaque to the verifier; its contents are
/// modelled by `grid_rows` and `grid_width`, and every access goes through
/// the contracted methods below.
#[verifier::external_body]
pub struct PlayField {
    cells: ndarray::Array2<Cell>,
}

/// The grid's contents, as the sequence of its rows, bottom row first; each
/// row is the sequence of its cells, leftmost column first.
pub uninterp spec fn grid_rows(a: PlayField) -> Seq<Seq<Cell>>;

/// The grid's column count (the length of each of its rows).
pub uninterp spec fn grid_width(a: PlayField) -> int;

impl PlayField {
    /// Relies on ndarray::Array2::from_elem: an array of shape (w, h) with
    /// every element a copy of `elem`; it panics only when the element count
    /// overflows isize.
    #[verifier::external_body]
    pub(crate) fn new_filled(w: usize, h: usize, elem: Cell) -> (r: PlayField)
        requires
            w <= 0x7fff_ffff,
            h <= 0x7fff_ffff,
            w * h <= 0x7fff_ffff,
        ensures
            grid_width(r) == w as int,
            grid_rows(r).len() == h as nat,
            forall|y: int|
                0 <= y < h ==> #[trigger] grid_rows(r)[y] == Seq::new(w as nat, |x: int| elem),
    {
        PlayField { cells: ndarray::Array2::from_elem((w, h), elem) }
    }

    /// Relies on indexing an ndarray::Array2 at [x, y] (column x, row y); it
    /// panics only when an index is out of bounds.
    #[verifier::external_body]
    pub(crate) fn get(&self, x: usize, y: usize) -> (r: Cell)
        requires
            y < grid_rows(*self).len(),
            x < grid_rows(*self)[y as int].len(),
        ensures
            r == grid_rows(*self)[y as int][x as int],
    {
        self.cells[[x, y]]
    }

    /// Relies on index-assignment into an ndarray::Array2 at [x, y] (column
    /// x, row y); it panics only when an index is out of bounds.
    #[verifier::external_body]
    pub(crate) fn set(&mut self, x: usize, y: usize, c: Cell)
        requires
            y < grid_rows(*old(self)).len(),
            x < grid_rows(*old(self))[y as int].len(),
        ensures
            grid_rows(*final(self)) == grid_rows(*old(self)).update(
                y as int,
                grid_rows(*old(self))[y as int].update(x as int, c),
            ),
            grid_width(*final(self)) == grid_width(*old(self)),
    {
        self.cells[[x, y]] = c;
    }

    /// Relies on ndarray's `select` along axis 1: copies of the rows at the
    /// given indices, in the given order; it panics only when an index is
    /// out of bounds or the result's element count overflows isize, and
    /// those inputs are excluded here.
    #[verifier::external_body]
    pub(crate) fn select_rows(&self, rows: &Vec<usize>) -> (r: PlayField)
        requires
            forall|i: int| 0 <= i < rows@.len() ==> #[trigger] rows@[i] < grid_rows(*self).len(),
            0 <= grid_width(*self),
            rows@.len() * grid_width(*self) <= 0x7fff_ffff,
        ensures
            grid_rows(r).len() == rows@.len(),
            forall|i: int|
                0 <= i < rows@.len() ==> #[trigger] grid_rows(r)[i] == grid_rows(*self)[rows@[i] as int],
            grid_width(r) == grid_width(*self),
    {
        PlayField { cells: self.cells.select(ndarray::Axis(1), rows.as_slice()) }
    }

    /// Relies on ndarray::concatenate along axis 1: the rows of `self`
    /// followed by the rows of `other`; it errs only when the widths differ
    /// or the result's element count overflows isize, and those inputs are
    /// excluded here.
    #[verifier::external_body]
    pub(crate) fn concat_rows(&self, other: &PlayField) -> (r: PlayField)
        requires
            grid_width(*self) == grid_width(*other),
            0 <= grid_width(*self),
            (grid_rows(*self).len() + grid_rows(*other).len()) * grid_width(*self) <= 0x7fff_ffff,
        ensures
            grid_rows(r) == grid_rows(*self) + grid_rows(*other),
            grid_width(r) == grid_width(*self),
    {
        PlayField {
            cells: ndarray::concatenate(
                ndarray::Axis(1),
                &[self.cells.view(), other.cells.view()],
            ).unwrap(),
        }
    }
}

/// Every cell of the row is a locked block.
pub open spec fn row_complete(row: Seq<Cell>) -> bool {
    forall|x: int| 0 <= x < row.len() ==> (#[trigger] row[x]).spec_is_block()
}

/// A row of empty cells, at the field's width.
pub open spec fn empty_row() -> Seq<Cell> {
    Seq::new(PLAY_FIELD_WIDTH as nat, |x: int| Cell::Empty)
}

/// The rows of the field that are not complete, in their original order.
pub open spec fn kept_rows(f: Seq<Seq<Cell>>) -> Seq<Seq<Cell>> {
    f.filter(|r: Seq<Cell>| !row_complete(r))
}

/// How many rows of the field are complete.
pub open spec fn cleared_count(f: Seq<Seq<Cell>>) -> int {
    f.len() - kept_rows(f).len()
}

/// The field after a line clear: the incomplete rows settle to the bottom in
/// their original order, and one empty row per cleared row is appended at
/// the top.
pub open spec fn compacted(f: Seq<Seq<Cell>>) -> Seq<Seq<Cell>> {
    kept_rows(f) + Seq::new(cleared_count(f) as nat, |i: int| empty_row())
}

/// Appending a row keeps it among the kept rows exactly when it is not
/// complete.
pub proof fn lemma_kept_rows_push(s: Seq<Seq<Cell>>, r: Seq<Cell>)
    ensures
        kept_rows(s.push(r)) == (if !row_complete(r) {
            kept_rows(s).push(r)
        } else {
            kept_rows(s)
        }),
{
    reveal(Seq::filter);
    assert(s.push(r).drop_last() =~= s);
    assert(s.push(r).last() == r);
}

/// The indices below `n` of the rows that are not complete, in increasing
/// order.
pub open spec fn kept_row_indices(f: Seq<Seq<Cell>>, n: int) -> Seq<int>
    decreases n,
{
    if n <= 0 {
        Seq::empty()
    } else if !row_complete(f[n - 1]) {
        kept_row_indices(f, n - 1).push(n - 1)
    } else {
        kept_row_indices(f, n - 1)
    }
}

/// The kept rows of the first `n` rows are exactly the rows at the kept
/// indices, in order.
pub proof fn lemma_kept_rows_are_indexed_rows(f: Seq<Seq<Cell>>, n: int)
    requires
        0 <= n <= f.len(),
    ensures
        kept_rows(f.take(n)) =~= kept_row_indices(f, n).map_values(|i: int| f[i]),
    decreases n,
{
    if n > 0 {
        lemma_kept_rows_are_indexed_rows(f, n - 1);
        lemma_kept_rows_push(f.take(n - 1), f[n - 1]);
        assert(f.take(n) =~= f.take(n - 1).push(f[n - 1]));
    }
}

/// A field of the fixed dimensions with every cell empty.
pub open spec fn empty_field() -> Seq<Seq<Cell>> {
    Seq::new(PLAY_FIELD_HEIGHT as nat, |y: int| empty_row())
}

/// The field has exactly its fixed height of rows, each at the fixed width.
pub open spec fn field_wf(f: Seq<Seq<Cell>>) -> bool {
    &&& f.len() == PLAY_FIELD_HEIGHT
    &&& forall|y: int| 0 <= y < f.len() ==> (#[trigger] f[y]).len() == PLAY_FIELD_WIDTH
}

/// Whether row `y` of the grid is completely occupied by blocks.
pub(crate) fn row_filled(a: &PlayField, y: usize) -> (r: bool)
    requires
        y < grid_rows(*a).len(),
        grid_rows(*a)[y as int].len() == PLAY_FIELD_WIDTH,
    ensures
        r == row_complete(grid_rows(*a)[y as int]),
{
    let ghost row = grid_rows(*a)[y as int];
    let mut x: usize = 0;
    while x < PLAY_FIELD_WIDTH
        invariant
            x <= PLAY_FIELD_WIDTH,
            y < grid_rows(*a).len(),
            grid_rows(*a)[y as int].len() == PLAY_FIELD_WIDTH,
            row == grid_rows(*a)[y as int],
            forall|j: int| 0 <= j < x ==> (#[trigger] row[j]).spec_is_block(),
        decreases PLAY_FIELD_WIDTH - x,
    {
        if !a.get(x, y).is_block() {
            assert(!row_complete(row)) by {
                assert(!row[x as int].spec_is_block());
            }
            return false;
        }
        x += 1;
    }
    true
}

} // verus!
