//! The grid of buttons: layout, capacity, cursor and drawing.

use vstd::prelude::*;
use crate::button::Button;
use crate::grid::{columns_for, rows_for, Grid, CELL_SIZE, MARGIN};
use crate::nav::{move_cursor, Direction};
use crate::render::{views, DrawOp};

verus! {

/// Why a button was not taken.
#[derive(Clone, Copy, Debug, PartialEq, Eq, Structural)]
pub enum TermErr {
    /// The grid holds as many buttons as its columns and visible rows allow.
    Full,
}

/// A grid of buttons laid out in rows, with a cursor.
pub struct Term<F: Fn()> {
    cells: Vec<Vec<Button<F>>>,
    cursor: (usize, usize),
    width: usize,
    height: usize,
}

impl<F: Fn()> View for Term<F> {
    type V = Grid<Button<F>>;

    closed spec fn view(&self) -> Grid<Button<F>> {
        Grid {
            rows: self.cells@.map_values(|row: Vec<Button<F>>| row@),
            cursor: (self.cursor.0 as nat, self.cursor.1 as nat),
            columns: self.width as nat,
            visible_rows: self.height as nat,
        }
    }
}

/// The number of cells that fit side by side in a terminal `width` wide.
fn columns_of(width: usize) -> (columns: usize)
    ensures
        columns == columns_for(width as nat),
{
    width / (CELL_SIZE + MARGIN)
}

/// The number of grid rows in a terminal `height` high.
fn rows_of(height: usize) -> (rows: usize)
    ensures
        rows == rows_for(height as nat),
{
    if height == 0 {
        0
    } else {
        height - 1
    }
}

impl<F: Fn()> Term<F> {
    /// An empty grid for a terminal `width` columns wide and `height` lines
    /// high.
    pub fn new(width: usize, height: usize) -> (term: Self)
        ensures
            term@ == Grid::<Button<F>>::empty(columns_for(width as nat), rows_for(height as nat)),
            term@.cells() == Seq::<Button<F>>::empty(),
            term@.rows_filled(),
    {
        let mut cells: Vec<Vec<Button<F>>> = Vec::new();
        cells.push(Vec::new());
        let term = Term { cells, cursor: (0, 0), width: columns_of(width), height: rows_of(height) };
        assert(term@.rows =~= seq![Seq::<Button<F>>::empty()]);
        proof {
            Grid::<Button<F>>::lemma_empty_has_no_cells(term@.columns, term@.visible_rows);
        }
        term
    }

    /// Fits the grid to a terminal `width` columns wide and `height` lines
    /// high. Buttons and cursor stay as they are.
    pub fn update_size(&mut self, width: usize, height: usize)
        ensures
            final(self)@ == old(self)@.resized(width as nat, height as nat),
    {
        self.width = columns_of(width);
        self.height = rows_of(height);
    }

    /// Drops every button and puts the cursor back at the origin.
    pub fn clear(&mut self)
        ensures
            final(self)@ == old(self)@.cleared(),
            final(self)@.cells() == Seq::<Button<F>>::empty(),
            final(self)@.rows_filled(),
    {
        let mut cells: Vec<Vec<Button<F>>> = Vec::new();
        cells.push(Vec::new());
        self.cells = cells;
        self.cursor = (0, 0);
        assert(self@.rows =~= seq![Seq::<Button<F>>::empty()]);
        proof {
            Grid::<Button<F>>::lemma_empty_has_no_cells(self@.columns, self@.visible_rows);
        }
    }

    /// The cursor: its row index, then its column index.
    pub fn cursor(&self) -> (cursor: (usize, usize))
        ensures
            (cursor.0 as nat, cursor.1 as nat) == self@.cursor,
    {
        self.cursor
    }

    /// The most buttons that a row takes.
    pub fn columns(&self) -> (columns: usize)
        ensures
            columns == self@.columns,
    {
        self.width
    }

    /// The most rows that are drawn.
    pub fn visible_rows(&self) -> (rows: usize)
        ensures
            rows == self@.visible_rows,
    {
        self.height
    }

    /// The labels of the buttons, row by row.
    pub fn labels(&self) -> (labels: Vec<Vec<String>>)
        ensures
            labels@.len() == self@.rows.len(),
            forall|i: int|
                0 <= i < labels@.len() ==> (#[trigger] labels@[i])@.len() == self@.rows[i].len(),
            forall|i: int, j: int|
                0 <= i < labels@.len() && 0 <= j < labels@[i]@.len() ==> (#[trigger] labels@[i]@[j])@
                    == self@.rows[i][j].label_view(),
    {
        let mut labels: Vec<Vec<String>> = Vec::new();
        let mut i: usize = 0;
        while i < self.cells.len()
            invariant
                i <= self.cells.len(),
                labels@.len() == i,
                forall|k: int|
                    0 <= k < i ==> (#[trigger] labels@[k])@.len() == self@.rows[k].len(),
                forall|k: int, j: int|
                    0 <= k < i && 0 <= j < labels@[k]@.len() ==> (#[trigger] labels@[k]@[j])@
                        == self@.rows[k][j].label_view(),
            decreases self.cells.len() - i,
        {
            let cells = &self.cells[i];
            let mut row: Vec<String> = Vec::new();
            let mut j: usize = 0;
            while j < cells.len()
                invariant
                    j <= cells.len(),
                    i < self.cells.len(),
                    *cells == self.cells[i as int],
                    row@.len() == j,
                    forall|k: int|
                        0 <= k < j ==> (#[trigger] row@[k])@ == self@.rows[i as int][k].label_view(),
                decreases cells.len() - j,
            {
                let label = cells[j].label().to_owned();
                row.push(label);
                j = j + 1;
            }
            labels.push(row);
            i = i + 1;
        }
        labels
    }

    /// The number of buttons in the grid.
    fn count(&self) -> (total: u128)
        ensures
            total == self@.cells().len(),
    {
        let mut total: u128 = 0;
        let mut i: usize = 0;
        assert(self@.rows.take(0) =~= Seq::<Seq<Button<F>>>::empty());
        while i < self.cells.len()
            invariant
                i <= self.cells.len(),
                total == self@.rows.take(i as int).flatten().len(),
                total <= i * usize::MAX,
            decreases self.cells.len() - i,
        {
            proof {
                let rows = self@.rows;
                assert(rows.take(i + 1) =~= rows.take(i as int).push(rows[i as int]));
                rows.take(i as int).lemma_flatten_push(rows[i as int]);
                assert(rows[i as int].len() == self.cells[i as int].len());
                assert((i + 1) * usize::MAX == i * usize::MAX + usize::MAX) by (nonlinear_arith);
                assert(i * usize::MAX + usize::MAX <= u128::MAX) by (nonlinear_arith)
                    requires
                        i < usize::MAX,
                        usize::MAX <= u64::MAX,
                ;
            }
            total = total + self.cells[i].len() as u128;
            i = i + 1;
        }
        assert(self@.rows.take(i as int) =~= self@.rows);
        total
    }

    /// Whether the grid takes no further button.
    pub fn is_full(&self) -> (full: bool)
        ensures
            full == self@.is_full(),
    {
        assert(self.width * self.height <= u128::MAX) by (nonlinear_arith)
            requires
                self.width <= u64::MAX,
                self.height <= u64::MAX,
        ;
        let capacity: u128 = (self.width as u128) * (self.height as u128);
        self.count() >= capacity
    }

    /// Appends `cell`: to the last row if it has room, else as the first
    /// button of a new row. A full grid takes nothing and stays as it is.
    pub fn push(&mut self, cell: Button<F>) -> (taken: Result<(), TermErr>)
        ensures
            taken is Err <==> old(self)@.is_full(),
            taken is Ok ==> final(self)@ == old(self)@.pushed(cell),
            taken is Err ==> final(self)@ == old(self)@,
            final(self)@ == old(self)@.offered(cell),
            final(self)@.cells() == if taken is Ok {
                old(self)@.cells().push(cell)
            } else {
                old(self)@.cells()
            },
            old(self)@.rows_filled() ==> final(self)@.rows_filled(),
    {
        if self.is_full() {
            return Err(TermErr::Full);
        }
        proof {
            self@.lemma_pushed_cells(cell);
            assert(self@.columns > 0) by (nonlinear_arith)
                requires
                    0 < self@.columns * self@.visible_rows,
            ;
            if self@.rows_filled() {
                self@.lemma_pushed_filled(cell);
            }
        }
        let n: usize = self.cells.len();
        if n > 0 && self.cells[n - 1].len() < self.width {
            self.cells[n - 1].push(cell);
            assert(self@.rows =~= old(self)@.pushed(cell).rows);
        } else {
            let mut row: Vec<Button<F>> = Vec::new();
            row.push(cell);
            self.cells.push(row);
            assert(self@.rows =~= old(self)@.pushed(cell).rows);
        }
        Ok(())
    }

    /// Moves the cursor one step in `dir`, wrapping at the last drawable row
    /// and the last column. Nothing moves while the grid holds no button or
    /// has no drawable row or no column. A cursor that a resize has left
    /// beyond the bounds is clamped to them before it moves. The bounds are
    /// those of the grid, not of a row's length: in a short last row the
    /// cursor may stand past the last button.
    pub fn go(&mut self, dir: Direction)
        ensures
            final(self)@ == old(self)@.moved(dir),
            old(self)@.navigable() ==> final(self)@.cursor_in_bounds(),
    {
        let rows: usize = if self.cells.len() <= self.height {
            self.cells.len()
        } else {
            self.height
        };
        if rows == 0 || self.width == 0 || self.count() == 0 {
            return ;
        }
        self.cursor = move_cursor(self.cursor, dir, rows, self.width);
    }

    /// Runs the action of the button under the cursor. Nothing happens where
    /// the cursor is on no button.
    pub fn click(&self)
        ensures
            self@.cell_at_cursor() matches Some(button) ==> call_ensures(button.action(), (), ()),
    {
        let (row, col) = self.cursor;
        if row < self.cells.len() && col < self.cells[row].len() {
            self.cells[row][col].click();
        }
    }

    /// The commands that draw the grid, top down: for each drawable row one
    /// label per button, then a move to the next line. With `term_is_selected`
    /// the button under the cursor is highlighted.
    pub fn draw(&self, term_is_selected: bool) -> (ops: Vec<DrawOp>)
        ensures
            views(ops@) == self@.draw_ops(term_is_selected),
    {
        let rows: usize = if self.cells.len() <= self.height {
            self.cells.len()
        } else {
            self.height
        };
        let mut ops: Vec<DrawOp> = Vec::new();
        let mut row: usize = 0;
        assert(views(ops@) =~= self@.rows_ops(0, term_is_selected));
        while row < rows
            invariant
                row <= rows,
                rows == self@.drawable_rows(),
                rows <= self.cells.len(),
                views(ops@) == self@.rows_ops(row as nat, term_is_selected),
            decreases rows - row,
        {
            let ghost done = views(ops@);
            let ghost labels = self@.row_ops(row as int, term_is_selected).drop_last();
            let cells = &self.cells[row];
            let mut col: usize = 0;
            assert(views(ops@) =~= done + labels.take(0));
            while col < cells.len()
                invariant
                    col <= cells.len(),
                    row < self.cells.len(),
                    *cells == self.cells[row as int],
                    labels == self@.row_ops(row as int, term_is_selected).drop_last(),
                    views(ops@) == done + labels.take(col as int),
                decreases cells.len() - col,
            {
                let is_selected = self.cursor.0 == row && self.cursor.1 == col;
                let op = cells[col].draw(is_selected && term_is_selected);
                let ghost drawn = ops@;
                ops.push(op);
                proof {
                    assert(self@.rows[row as int] == cells@);
                    assert(labels[col as int] == op@);
                    assert(labels.take(col + 1) =~= labels.take(col as int).push(op@));
                    assert(views(ops@) =~= views(drawn).push(op@));
                }
                col = col + 1;
            }
            let ghost drawn = ops@;
            ops.push(DrawOp::NextLine);
            proof {
                let whole = self@.row_ops(row as int, term_is_selected);
                assert(self@.rows[row as int] == cells@);
                assert(labels.take(col as int) =~= labels);
                assert(whole =~= labels.push(DrawOp::NextLine@));
                assert(views(ops@) =~= views(drawn).push(DrawOp::NextLine@));
                assert(views(ops@) =~= done + whole);
                let before = Seq::new(
                    row as nat,
                    |index: int| self@.row_ops(index, term_is_selected),
                );
                let after = Seq::new(
                    (row + 1) as nat,
                    |index: int| self@.row_ops(index, term_is_selected),
                );
                assert(after =~= before.push(whole));
                before.lemma_flatten_push(whole);
            }
            row = row + 1;
        }
        ops
    }
}

} // verus!
