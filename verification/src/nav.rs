//! Cursor arithmetic on a grid of drawable rows and columns.
//!
//! A cursor is a pair of a row index and a column index. All four directions
//! wrap at the same bounds: the last drawable row and the last column. A
//! single boundary keeps every cursor that navigation produces inside the
//! drawable rows, makes `Left` undo `Right` and `Up` undo `Down`, and makes
//! `Right` repeated once per cell a full tour of the grid.

use vstd::prelude::*;

verus! {

/// A direction in which the cursor moves.
#[derive(Clone, Copy, Debug, PartialEq, Eq, Structural)]
pub enum Direction {
    Up,
    Down,
    Right,
    Left,
}

/// Whether `cursor` addresses one of `rows` rows and `columns` columns.
pub open spec fn in_bounds(cursor: (nat, nat), rows: nat, columns: nat) -> bool {
    cursor.0 < rows && cursor.1 < columns
}

/// The cursor pulled back to the nearest position inside the bounds.
pub open spec fn clamped(cursor: (nat, nat), rows: nat, columns: nat) -> (nat, nat)
    recommends
        rows > 0,
        columns > 0,
{
    (
        if cursor.0 < rows { cursor.0 } else { (rows - 1) as nat },
        if cursor.1 < columns { cursor.1 } else { (columns - 1) as nat },
    )
}

/// The row above `row`, wrapping from the first row to the last.
pub open spec fn row_above(row: nat, rows: nat) -> nat
    recommends
        row < rows,
{
    if row == 0 { (rows - 1) as nat } else { (row - 1) as nat }
}

/// The row below `row`, wrapping from the last row to the first.
pub open spec fn row_below(row: nat, rows: nat) -> nat
    recommends
        row < rows,
{
    if row + 1 == rows { 0 } else { row + 1 }
}

/// One move of a cursor that lies inside the bounds.
pub open spec fn stepped(cursor: (nat, nat), dir: Direction, rows: nat, columns: nat) -> (nat, nat)
    recommends
        in_bounds(cursor, rows, columns),
{
    match dir {
        Direction::Up => (row_above(cursor.0, rows), cursor.1),
        Direction::Down => (row_below(cursor.0, rows), cursor.1),
        Direction::Right => if cursor.1 + 1 == columns {
            (row_below(cursor.0, rows), 0)
        } else {
            (cursor.0, cursor.1 + 1)
        },
        Direction::Left => if cursor.1 == 0 {
            (row_above(cursor.0, rows), (columns - 1) as nat)
        } else {
            (cursor.0, (cursor.1 - 1) as nat)
        },
    }
}

/// One move of any cursor: a position outside the bounds is clamped first.
pub open spec fn moved(cursor: (nat, nat), dir: Direction, rows: nat, columns: nat) -> (nat, nat)
    recommends
        rows > 0,
        columns > 0,
{
    stepped(clamped(cursor, rows, columns), dir, rows, columns)
}

/// The cursor after `n` moves in the same direction.
pub open spec fn moved_n(cursor: (nat, nat), dir: Direction, rows: nat, columns: nat, n: nat) -> (
    nat,
    nat,
)
    decreases n,
{
    if n == 0 {
        cursor
    } else {
        moved(moved_n(cursor, dir, rows, columns, (n - 1) as nat), dir, rows, columns)
    }
}

/// Moves a cursor once in a grid of `rows` drawable rows and `columns`
/// columns, after clamping it to those bounds.
pub fn move_cursor(cursor: (usize, usize), dir: Direction, rows: usize, columns: usize) -> (next: (
    usize,
    usize,
))
    requires
        rows > 0,
        columns > 0,
    ensures
        (next.0 as nat, next.1 as nat) == moved(
            (cursor.0 as nat, cursor.1 as nat),
            dir,
            rows as nat,
            columns as nat,
        ),
        in_bounds((next.0 as nat, next.1 as nat), rows as nat, columns as nat),
{
    let last_row: usize = rows - 1;
    let last_col: usize = columns - 1;
    let row: usize = if cursor.0 < rows { cursor.0 } else { last_row };
    let col: usize = if cursor.1 < columns { cursor.1 } else { last_col };
    let above: usize = if row == 0 { last_row } else { row - 1 };
    let below: usize = if row == last_row { 0 } else { row + 1 };
    match dir {
        Direction::Up => (above, col),
        Direction::Down => (below, col),
        Direction::Right => if col == last_col {
            (below, 0)
        } else {
            (row, col + 1)
        },
        Direction::Left => if col == 0 {
            (above, last_col)
        } else {
            (row, col - 1)
        },
    }
}

/// `Left` undoes `Right`, `Right` undoes `Left`, `Up` undoes `Down` and
/// `Down` undoes `Up`, from every cursor inside the bounds.
pub proof fn lemma_opposite_moves_cancel(cursor: (nat, nat), rows: nat, columns: nat)
    requires
        in_bounds(cursor, rows, columns),
    ensures
        moved(moved(cursor, Direction::Right, rows, columns), Direction::Left, rows, columns)
            == cursor,
        moved(moved(cursor, Direction::Left, rows, columns), Direction::Right, rows, columns)
            == cursor,
        moved(moved(cursor, Direction::Down, rows, columns), Direction::Up, rows, columns)
            == cursor,
        moved(moved(cursor, Direction::Up, rows, columns), Direction::Down, rows, columns)
            == cursor,
{
}

/// Moves in one direction can be split into two runs.
pub proof fn lemma_moved_n_split(
    cursor: (nat, nat),
    dir: Direction,
    rows: nat,
    columns: nat,
    a: nat,
    b: nat,
)
    ensures
        moved_n(cursor, dir, rows, columns, a + b) == moved_n(
            moved_n(cursor, dir, rows, columns, a),
            dir,
            rows,
            columns,
            b,
        ),
    decreases b,
{
    if b > 0 {
        lemma_moved_n_split(cursor, dir, rows, columns, a, (b - 1) as nat);
        assert((a + b - 1) as nat == a + (b - 1) as nat);
    }
}

/// From the first move on it makes no difference whether the cursor was
/// clamped beforehand.
pub proof fn lemma_moved_n_clamped(
    cursor: (nat, nat),
    dir: Direction,
    rows: nat,
    columns: nat,
    n: nat,
)
    requires
        rows > 0,
        columns > 0,
        n > 0,
    ensures
        moved_n(cursor, dir, rows, columns, n) == moved_n(
            clamped(cursor, rows, columns),
            dir,
            rows,
            columns,
            n,
        ),
    decreases n,
{
    if n > 1 {
        lemma_moved_n_clamped(cursor, dir, rows, columns, (n - 1) as nat);
    } else {
        reveal_with_fuel(moved_n, 2);
    }
}

/// `k` moves `Down` that stay short of the last row advance the row by `k`.
proof fn lemma_down_run(cursor: (nat, nat), rows: nat, columns: nat, k: nat)
    requires
        in_bounds(cursor, rows, columns),
        cursor.0 + k < rows,
    ensures
        moved_n(cursor, Direction::Down, rows, columns, k) == (cursor.0 + k, cursor.1),
    decreases k,
{
    if k > 0 {
        lemma_down_run(cursor, rows, columns, (k - 1) as nat);
    }
}

/// `rows` moves `Down` bring a cursor inside the bounds back to where it was.
pub proof fn lemma_down_cycle(cursor: (nat, nat), rows: nat, columns: nat)
    requires
        in_bounds(cursor, rows, columns),
    ensures
        moved_n(cursor, Direction::Down, rows, columns, rows) == cursor,
{
    let to_last = (rows - 1 - cursor.0) as nat;
    let at_last = ((rows - 1) as nat, cursor.1);
    let at_first = (0nat, cursor.1);
    lemma_down_run(cursor, rows, columns, to_last);
    assert(moved_n(cursor, Direction::Down, rows, columns, to_last) == at_last);
    assert(moved_n(at_last, Direction::Down, rows, columns, 1) == at_first) by {
        reveal_with_fuel(moved_n, 2);
    }
    lemma_down_run(at_first, rows, columns, cursor.0);
    lemma_moved_n_split(cursor, Direction::Down, rows, columns, to_last, 1);
    lemma_moved_n_split(cursor, Direction::Down, rows, columns, to_last + 1, cursor.0);
    assert(to_last + 1 + cursor.0 == rows);
}

/// `k` moves `Right` that stay short of the last column advance the column
/// by `k`.
proof fn lemma_right_run(cursor: (nat, nat), rows: nat, columns: nat, k: nat)
    requires
        in_bounds(cursor, rows, columns),
        cursor.1 + k < columns,
    ensures
        moved_n(cursor, Direction::Right, rows, columns, k) == (cursor.0, cursor.1 + k),
    decreases k,
{
    if k > 0 {
        lemma_right_run(cursor, rows, columns, (k - 1) as nat);
    }
}

/// `columns` moves `Right` end in the same column, one row below.
proof fn lemma_right_row(cursor: (nat, nat), rows: nat, columns: nat)
    requires
        in_bounds(cursor, rows, columns),
    ensures
        moved_n(cursor, Direction::Right, rows, columns, columns) == (
            row_below(cursor.0, rows),
            cursor.1,
        ),
{
    let to_last = (columns - 1 - cursor.1) as nat;
    let at_last = (cursor.0, (columns - 1) as nat);
    let at_first = (row_below(cursor.0, rows), 0nat);
    lemma_right_run(cursor, rows, columns, to_last);
    assert(moved_n(cursor, Direction::Right, rows, columns, to_last) == at_last);
    assert(moved_n(at_last, Direction::Right, rows, columns, 1) == at_first) by {
        reveal_with_fuel(moved_n, 2);
    }
    lemma_right_run(at_first, rows, columns, cursor.1);
    lemma_moved_n_split(cursor, Direction::Right, rows, columns, to_last, 1);
    lemma_moved_n_split(cursor, Direction::Right, rows, columns, to_last + 1, cursor.1);
    assert(to_last + 1 + cursor.1 == columns);
}

/// `m * columns` moves `Right` amount to `m` moves `Down`.
proof fn lemma_right_rows(cursor: (nat, nat), rows: nat, columns: nat, m: nat)
    requires
        in_bounds(cursor, rows, columns),
    ensures
        moved_n(cursor, Direction::Right, rows, columns, m * columns) == moved_n(
            cursor,
            Direction::Down,
            rows,
            columns,
            m,
        ),
    decreases m,
{
    if m == 0 {
        assert(m * columns == 0) by (nonlinear_arith)
            requires
                m == 0,
        ;
    } else {
        let k = (m - 1) as nat;
        lemma_right_rows(cursor, rows, columns, k);
        let mid = moved_n(cursor, Direction::Down, rows, columns, k);
        lemma_moved_n_in_bounds(cursor, Direction::Down, rows, columns, k);
        lemma_right_row(mid, rows, columns);
        lemma_moved_n_split(cursor, Direction::Right, rows, columns, k * columns, columns);
        assert(k * columns + columns == m * columns) by (nonlinear_arith)
            requires
                k + 1 == m,
        ;
    }
}

/// Moves from inside the bounds stay inside the bounds.
pub proof fn lemma_moved_n_in_bounds(
    cursor: (nat, nat),
    dir: Direction,
    rows: nat,
    columns: nat,
    n: nat,
)
    requires
        in_bounds(cursor, rows, columns),
    ensures
        in_bounds(moved_n(cursor, dir, rows, columns, n), rows, columns),
    decreases n,
{
    if n > 0 {
        lemma_moved_n_in_bounds(cursor, dir, rows, columns, (n - 1) as nat);
    }
}

/// `rows * columns` moves `Right` bring a cursor inside the bounds back to
/// where it was.
pub proof fn lemma_right_cycle(cursor: (nat, nat), rows: nat, columns: nat)
    requires
        in_bounds(cursor, rows, columns),
    ensures
        moved_n(cursor, Direction::Right, rows, columns, rows * columns) == cursor,
{
    lemma_right_rows(cursor, rows, columns, rows);
    lemma_down_cycle(cursor, rows, columns);
}

} // verus!
