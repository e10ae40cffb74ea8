//! The mathematical model of the grid: rows of cells, a cursor and the
//! dimensions that bound both, with the laws that hold of it.

use vstd::prelude::*;
use crate::button::Button;
use crate::nav::{clamped, in_bounds, moved, Direction};
use crate::render::{is_highlighted, DrawOpView};

verus! {

/// Width of a cell's label, in bytes.
pub const CELL_SIZE: usize = 20;

/// Gap between two cells of a row.
pub const MARGIN: usize = 5;

/// The number of cells that fit side by side in a terminal `width` wide.
pub open spec fn columns_for(width: nat) -> nat {
    width / ((CELL_SIZE + MARGIN) as nat)
}

/// The number of grid rows in a terminal `height` high: one line is kept for
/// the search bar, and a terminal without lines has no row.
pub open spec fn rows_for(height: nat) -> nat {
    if height == 0 { 0 } else { (height - 1) as nat }
}

/// A grid of cells of type `C`.
pub struct Grid<C> {
    /// The rows, in insertion order; each row holds its cells in insertion
    /// order.
    pub rows: Seq<Seq<C>>,
    /// The cursor: a row index and a column index.
    pub cursor: (nat, nat),
    /// The most cells that a row takes.
    pub columns: nat,
    /// The most rows that are drawn.
    pub visible_rows: nat,
}

impl<C> Grid<C> {
    /// The grid without cells: one empty row, the cursor at the origin.
    pub open spec fn empty(columns: nat, visible_rows: nat) -> Self {
        Grid { rows: seq![Seq::<C>::empty()], cursor: (0, 0), columns, visible_rows }
    }

    /// All cells, in insertion order.
    pub open spec fn cells(self) -> Seq<C> {
        self.rows.flatten()
    }

    /// The most cells that the grid takes.
    pub open spec fn capacity(self) -> nat {
        self.columns * self.visible_rows
    }

    /// Whether the grid takes no further cell.
    pub open spec fn is_full(self) -> bool {
        self.cells().len() >= self.capacity()
    }

    /// Whether the last row exists and holds fewer cells than a row takes.
    pub open spec fn last_row_has_room(self) -> bool {
        self.rows.len() > 0 && self.rows.last().len() < self.columns
    }

    /// The grid with `cell` appended: to the last row if it has room, else
    /// as the first cell of a new row.
    pub open spec fn pushed(self, cell: C) -> Self {
        Grid {
            rows: if self.last_row_has_room() {
                self.rows.update(self.rows.len() - 1, self.rows.last().push(cell))
            } else {
                self.rows.push(seq![cell])
            },
            ..self
        }
    }

    /// The grid after an attempt to append `cell`: unchanged if it is full.
    pub open spec fn offered(self, cell: C) -> Self {
        if self.is_full() { self } else { self.pushed(cell) }
    }

    /// The grid after offering each of `cells` in order.
    pub open spec fn offered_all(self, cells: Seq<C>) -> Self
        decreases cells.len(),
    {
        if cells.len() == 0 {
            self
        } else {
            self.offered_all(cells.drop_last()).offered(cells.last())
        }
    }

    /// The grid with its cells dropped and its cursor at the origin.
    pub open spec fn cleared(self) -> Self {
        Grid { rows: seq![Seq::<C>::empty()], cursor: (0, 0), ..self }
    }

    /// The grid fitted to a terminal `width` wide and `height` high; cells and
    /// cursor stay as they are.
    pub open spec fn resized(self, width: nat, height: nat) -> Self {
        Grid { columns: columns_for(width), visible_rows: rows_for(height), ..self }
    }

    /// The number of rows that are drawn.
    pub open spec fn drawable_rows(self) -> nat {
        if self.rows.len() <= self.visible_rows { self.rows.len() } else { self.visible_rows }
    }

    /// Whether the cursor can move: the grid holds a cell, and there is at
    /// least one drawable row and one column.
    pub open spec fn navigable(self) -> bool {
        self.cells().len() > 0 && self.drawable_rows() > 0 && self.columns > 0
    }

    /// Whether the cursor lies within the drawable rows and the columns.
    pub open spec fn cursor_in_bounds(self) -> bool {
        in_bounds(self.cursor, self.drawable_rows(), self.columns)
    }

    /// The grid after one move of the cursor. Where the cursor cannot move
    /// the grid stays as it is; a cursor outside the bounds is clamped first.
    pub open spec fn moved(self, dir: Direction) -> Self {
        if self.navigable() {
            Grid { cursor: moved(self.cursor, dir, self.drawable_rows(), self.columns), ..self }
        } else {
            self
        }
    }

    /// The grid after `n` moves of the cursor in one direction.
    pub open spec fn moved_n(self, dir: Direction, n: nat) -> Self
        decreases n,
    {
        if n == 0 {
            self
        } else {
            self.moved_n(dir, (n - 1) as nat).moved(dir)
        }
    }

    /// The grid after the moves `dirs`, made in order.
    pub open spec fn moved_along(self, dirs: Seq<Direction>) -> Self
        decreases dirs.len(),
    {
        if dirs.len() == 0 {
            self
        } else {
            self.moved_along(dirs.drop_last()).moved(dirs.last())
        }
    }

    /// The cell under the cursor, if the cursor addresses one.
    pub open spec fn cell_at_cursor(self) -> Option<C> {
        if self.cursor.0 < self.rows.len() && self.cursor.1 < self.rows[self.cursor.0 as int].len() {
            Some(self.rows[self.cursor.0 as int][self.cursor.1 as int])
        } else {
            None
        }
    }

    /// Whether every row but the last holds exactly `columns` cells, the last
    /// holds no more, and no row but a sole one is empty.
    pub open spec fn rows_filled(self) -> bool {
        &&& self.rows.len() > 0
        &&& self.rows.last().len() <= self.columns
        &&& self.rows.len() == 1 || self.rows.last().len() > 0
        &&& forall|i: int|
            0 <= i < self.rows.len() - 1 ==> (#[trigger] self.rows[i]).len() == self.columns
    }

    /// The empty grid holds no cell and its rows are filled.
    pub proof fn lemma_empty_has_no_cells(columns: nat, visible_rows: nat)
        ensures
            Self::empty(columns, visible_rows).cells() == Seq::<C>::empty(),
            Self::empty(columns, visible_rows).rows_filled(),
            !Self::empty(columns, visible_rows).navigable(),
    {
        let start = Self::empty(columns, visible_rows);
        assert(start.rows == Seq::<Seq<C>>::empty().push(Seq::<C>::empty()));
        Seq::<Seq<C>>::empty().lemma_flatten_push(Seq::<C>::empty());
    }

    /// Appending a cell appends it to the cells in insertion order.
    pub proof fn lemma_pushed_cells(self, cell: C)
        ensures
            self.pushed(cell).cells() == self.cells().push(cell),
    {
        if self.last_row_has_room() {
            let front = self.rows.drop_last();
            assert(self.rows == front.push(self.rows.last()));
            assert(self.pushed(cell).rows == front.push(self.rows.last().push(cell)));
            front.lemma_flatten_push(self.rows.last());
            front.lemma_flatten_push(self.rows.last().push(cell));
            assert(self.pushed(cell).cells() == self.cells().push(cell));
        } else {
            self.rows.lemma_flatten_push(seq![cell]);
            assert(self.cells() + seq![cell] == self.cells().push(cell));
        }
    }

    /// In a grid whose rows are filled, the cells number `columns` for each
    /// row but the last, plus those of the last row.
    pub proof fn lemma_filled_count(self)
        requires
            self.rows_filled(),
        ensures
            self.cells().len() == (self.rows.len() - 1) * self.columns + self.rows.last().len(),
        decreases self.rows.len(),
    {
        let front = self.rows.drop_last();
        assert(self.rows == front.push(self.rows.last()));
        front.lemma_flatten_push(self.rows.last());
        if front.len() == 0 {
            assert(front.flatten() == Seq::<C>::empty());
            assert((self.rows.len() - 1) * self.columns == 0) by (nonlinear_arith)
                requires
                    self.rows.len() == 1,
            ;
        } else {
            let rest = Grid { rows: front, ..self };
            assert(rest.rows_filled());
            rest.lemma_filled_count();
            assert((self.rows.len() - 1) * self.columns == (front.len() - 1) * self.columns
                + self.columns) by (nonlinear_arith)
                requires
                    self.rows.len() == front.len() + 1,
            ;
        }
    }

    /// Appending a cell to a grid whose rows are filled leaves them filled.
    pub proof fn lemma_pushed_filled(self, cell: C)
        requires
            self.rows_filled(),
            self.columns > 0,
        ensures
            self.pushed(cell).rows_filled(),
    {
    }

    /// An offer never takes a grid beyond its capacity.
    pub proof fn lemma_offered_within_capacity(self, cell: C)
        requires
            self.cells().len() <= self.capacity(),
        ensures
            self.offered(cell).cells().len() <= self.offered(cell).capacity(),
            self.offered(cell).cells().len() == if self.is_full() {
                self.cells().len()
            } else {
                self.cells().len() + 1
            },
    {
        self.lemma_pushed_cells(cell);
    }

    /// In a grid whose rows are filled and that holds cells, no more than
    /// its capacity, every row is drawable.
    pub proof fn lemma_filled_rows_drawable(self)
        requires
            self.rows_filled(),
            0 < self.cells().len() <= self.capacity(),
        ensures
            self.rows.len() <= self.visible_rows,
            self.drawable_rows() == self.rows.len(),
    {
        self.lemma_filled_count();
        let full_rows = self.rows.len() - 1;
        assert(full_rows < self.visible_rows) by (nonlinear_arith)
            requires
                full_rows >= 0,
                full_rows * self.columns + self.rows.last().len() <= self.columns
                    * self.visible_rows,
                full_rows * self.columns + self.rows.last().len() > 0,
                full_rows > 0 ==> self.rows.last().len() > 0,
                self.rows.last().len() <= self.columns,
        ;
    }

    /// Offering cells to the empty grid, no more than it takes, stores them
    /// all, in order, with every row but the last holding exactly `columns`
    /// cells: no offer fails, and the cells number as many as were offered.
    pub proof fn lemma_offers_fill_rows(columns: nat, visible_rows: nat, cells: Seq<C>)
        requires
            cells.len() <= columns * visible_rows,
        ensures
            Self::empty(columns, visible_rows).offered_all(cells).cells() == cells,
            Self::empty(columns, visible_rows).offered_all(cells).rows_filled(),
            Self::empty(columns, visible_rows).offered_all(cells).columns == columns,
            Self::empty(columns, visible_rows).offered_all(cells).visible_rows == visible_rows,
            Self::empty(columns, visible_rows).offered_all(cells).cursor == (0nat, 0nat),
        decreases cells.len(),
    {
        let start = Self::empty(columns, visible_rows);
        if cells.len() == 0 {
            Self::lemma_empty_has_no_cells(columns, visible_rows);
            assert(start.cells() == cells);
        } else {
            let before = start.offered_all(cells.drop_last());
            Self::lemma_offers_fill_rows(columns, visible_rows, cells.drop_last());
            assert(!before.is_full());
            assert(columns > 0) by (nonlinear_arith)
                requires
                    0 < columns * visible_rows,
            ;
            before.lemma_pushed_cells(cells.last());
            before.lemma_pushed_filled(cells.last());
            assert(cells.drop_last().push(cells.last()) == cells);
        }
    }

    /// Offers leave cursor and dimensions as they are.
    pub proof fn lemma_offered_all_keeps_cursor(self, cells: Seq<C>)
        ensures
            self.offered_all(cells).cursor == self.cursor,
            self.offered_all(cells).columns == self.columns,
            self.offered_all(cells).visible_rows == self.visible_rows,
        decreases cells.len(),
    {
        if cells.len() > 0 {
            self.lemma_offered_all_keeps_cursor(cells.drop_last());
        }
    }

    /// An offer to a full grid changes nothing, however often it is made.
    pub proof fn lemma_full_stays_full(self, cells: Seq<C>)
        requires
            self.is_full(),
        ensures
            self.offered_all(cells) == self,
        decreases cells.len(),
    {
        if cells.len() > 0 {
            self.lemma_full_stays_full(cells.drop_last());
        }
    }

    /// After a clear no sequence of moves takes the cursor off the origin.
    pub proof fn lemma_cleared_stays_at_origin(self, dirs: Seq<Direction>)
        ensures
            self.cleared().moved_along(dirs) == self.cleared(),
        decreases dirs.len(),
    {
        Self::lemma_empty_has_no_cells(self.columns, self.visible_rows);
        assert(self.cleared() == Self::empty(self.columns, self.visible_rows));
        if dirs.len() > 0 {
            self.lemma_cleared_stays_at_origin(dirs.drop_last());
        }
    }

    /// Opposite moves cancel: `Left` undoes `Right`, `Right` undoes `Left`,
    /// `Up` undoes `Down` and `Down` undoes `Up`, wherever the cursor lies
    /// within the bounds. (A cursor that a resize has left beyond the bounds
    /// of a grid in which it can move is clamped by the first move, and does
    /// not come back.)
    pub proof fn lemma_opposite_moves_cancel(self)
        requires
            self.navigable() ==> self.cursor_in_bounds(),
        ensures
            self.moved(Direction::Right).moved(Direction::Left) == self,
            self.moved(Direction::Left).moved(Direction::Right) == self,
            self.moved(Direction::Down).moved(Direction::Up) == self,
            self.moved(Direction::Up).moved(Direction::Down) == self,
    {
    }

    /// Moves of the grid's cursor are the moves of the cursor arithmetic.
    pub proof fn lemma_moved_n_cursor(self, dir: Direction, n: nat)
        requires
            self.navigable(),
        ensures
            self.moved_n(dir, n) == (Grid {
                cursor: crate::nav::moved_n(
                    self.cursor,
                    dir,
                    self.drawable_rows(),
                    self.columns,
                    n,
                ),
                ..self
            }),
        decreases n,
    {
        if n > 0 {
            self.lemma_moved_n_cursor(dir, (n - 1) as nat);
        }
    }

    /// As many moves `Down` as there are drawable rows return the cursor to
    /// its row, if that row is one of them.
    pub proof fn lemma_down_cycle(self)
        requires
            self.navigable() ==> self.cursor.0 < self.drawable_rows(),
        ensures
            self.moved_n(Direction::Down, self.drawable_rows()).cursor.0 == self.cursor.0,
            self.cursor_in_bounds() ==> self.moved_n(Direction::Down, self.drawable_rows())
                == self,
    {
        let rows = self.drawable_rows();
        if self.navigable() {
            let start = clamped(self.cursor, rows, self.columns);
            self.lemma_moved_n_cursor(Direction::Down, rows);
            crate::nav::lemma_moved_n_clamped(self.cursor, Direction::Down, rows, self.columns, rows);
            crate::nav::lemma_down_cycle(start, rows, self.columns);
        } else {
            self.lemma_not_navigable_stays(Direction::Down, rows);
        }
    }

    /// As many moves `Right` as there are cells in the drawable rows, which
    /// is their number times the columns, return the cursor to its position,
    /// if it lies within the bounds.
    pub proof fn lemma_right_cycle(self)
        requires
            self.navigable() ==> self.cursor_in_bounds(),
        ensures
            self.moved_n(Direction::Right, self.drawable_rows() * self.columns) == self,
    {
        let rows = self.drawable_rows();
        if self.navigable() {
            self.lemma_moved_n_cursor(Direction::Right, rows * self.columns);
            crate::nav::lemma_right_cycle(self.cursor, rows, self.columns);
        } else {
            self.lemma_not_navigable_stays(Direction::Right, rows * self.columns);
        }
    }

    /// Every move leaves the cursor of a grid in which it can move within
    /// the bounds.
    pub proof fn lemma_moved_in_bounds(self, dir: Direction)
        requires
            self.navigable(),
        ensures
            self.moved(dir).cursor_in_bounds(),
            self.moved(dir).navigable(),
    {
    }

    /// Where the cursor cannot move, no number of moves changes the grid.
    pub proof fn lemma_not_navigable_stays(self, dir: Direction, n: nat)
        requires
            !self.navigable(),
        ensures
            self.moved_n(dir, n) == self,
        decreases n,
    {
        if n > 0 {
            self.lemma_not_navigable_stays(dir, (n - 1) as nat);
        }
    }
}

impl<F: Fn()> Grid<Button<F>> {
    /// The commands that draw the row `index`: one label for each of its
    /// cells, highlighted where the grid has the focus and the cursor is on
    /// the cell, and a move to the next line.
    pub open spec fn row_ops(self, index: int, focused: bool) -> Seq<DrawOpView> {
        Seq::new(
            self.rows[index].len(),
            |col: int|
                DrawOpView::Label {
                    text: self.rows[index][col].label_view(),
                    highlighted: focused && self.cursor == (index as nat, col as nat),
                },
        ).push(DrawOpView::NextLine)
    }

    /// The commands that draw the first `count` rows.
    pub open spec fn rows_ops(self, count: nat, focused: bool) -> Seq<DrawOpView> {
        Seq::new(count, |index: int| self.row_ops(index, focused)).flatten()
    }

    /// The commands that draw the grid: those of its drawable rows, top down.
    pub open spec fn draw_ops(self, focused: bool) -> Seq<DrawOpView> {
        self.rows_ops(self.drawable_rows(), focused)
    }

    /// The commands of the first `count` rows are those of the rows before
    /// the last of them, followed by those of that row.
    pub proof fn lemma_rows_ops_step(self, count: nat, focused: bool)
        requires
            count > 0,
        ensures
            self.rows_ops(count, focused) == self.rows_ops((count - 1) as nat, focused)
                + self.row_ops(count - 1, focused),
    {
        let before = Seq::new((count - 1) as nat, |index: int| self.row_ops(index, focused));
        let whole = Seq::new(count, |index: int| self.row_ops(index, focused));
        assert(whole =~= before.push(self.row_ops(count - 1, focused)));
        before.lemma_flatten_push(self.row_ops(count - 1, focused));
    }

    /// With the cursor at the origin, no command among those of the first
    /// `count` rows is highlighted but the first.
    pub proof fn lemma_origin_highlight(self, count: nat, focused: bool)
        requires
            self.cursor == (0nat, 0nat),
        ensures
            forall|k: int|
                0 <= k < self.rows_ops(count, focused).len() && is_highlighted(
                    #[trigger] self.rows_ops(count, focused)[k],
                ) ==> k == 0,
        decreases count,
    {
        if count == 0 {
            assert(self.rows_ops(count, focused) =~= Seq::<DrawOpView>::empty());
        } else {
            self.lemma_origin_highlight((count - 1) as nat, focused);
            self.lemma_rows_ops_step(count, focused);
            if count == 1 {
                assert(self.rows_ops(0, focused) =~= Seq::<DrawOpView>::empty());
            }
        }
    }

    /// Without the focus the grid is drawn with nothing highlighted.
    pub proof fn lemma_unfocused_plain(self, count: nat)
        ensures
            forall|k: int|
                0 <= k < self.rows_ops(count, false).len() ==> !is_highlighted(
                    #[trigger] self.rows_ops(count, false)[k],
                ),
        decreases count,
    {
        if count == 0 {
            assert(self.rows_ops(count, false) =~= Seq::<DrawOpView>::empty());
        } else {
            self.lemma_unfocused_plain((count - 1) as nat);
            self.lemma_rows_ops_step(count, false);
        }
    }

    /// After a clear, whatever moves and appends follow in which order, the
    /// grid is drawn with nothing highlighted but the first button.
    pub proof fn lemma_cleared_highlight(
        self,
        dirs: Seq<Direction>,
        cells: Seq<Button<F>>,
        focused: bool,
    )
        ensures
            forall|k: int|
                0 <= k < self.cleared().moved_along(dirs).offered_all(cells).draw_ops(
                    focused,
                ).len() && is_highlighted(
                    #[trigger] self.cleared().moved_along(dirs).offered_all(cells).draw_ops(
                        focused,
                    )[k],
                ) ==> k == 0,
    {
        self.lemma_cleared_stays_at_origin(dirs);
        self.cleared().lemma_offered_all_keeps_cursor(cells);
        let shown = self.cleared().offered_all(cells);
        shown.lemma_origin_highlight(shown.drawable_rows(), focused);
    }
}

} // verus!
