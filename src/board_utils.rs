use crate::grid::{grid_cells, grid_shape, CellGrid};
use vstd::prelude::*;

verus! {

/// Rows of the board grid.
pub const GRID_ROWS: usize = 6;

/// Columns of the board grid.
pub const GRID_COLS: usize = 6;

/// Display offset of grid row zero.
pub const GRID_START_ROW_PX: i32 = -150;

/// Display offset of grid column zero.
pub const GRID_START_COL_PX: i32 = -50;

/// Display distance between two neighbouring grid cells.
pub const CELL_PX: i32 = 100;

/// Failures of board geometry and piece construction.
#[derive(Debug, Clone, Copy, PartialEq, Eq, Structural)]
pub enum BoardError {
    /// A coordinate lies outside the grid.
    OutOfBounds,
    /// A piece shape has no rows or no columns.
    InvalidShape,
}

/// `(row, col)` lies on the grid.
pub open spec fn in_bounds(row: int, col: int) -> bool {
    0 <= row < GRID_ROWS && 0 <= col < GRID_COLS
}

/// Every position of `positions` lies on the grid.
pub open spec fn all_in_bounds(positions: Seq<(i32, i32)>) -> bool {
    forall|k: int| 0 <= k < positions.len() ==> in_bounds(
        (#[trigger] positions[k]).0 as int,
        positions[k].1 as int,
    )
}

/// Whether `(row, col)` is a cell of the grid.
pub fn is_within_bounds(row: i32, col: i32) -> (r: bool)
    ensures
        r == in_bounds(row as int, col as int),
{
    0 <= row && row < GRID_ROWS as i32 && 0 <= col && col < GRID_COLS as i32
}

/// Checks fixed positions (such as blockers) against the grid.
pub fn assert_valid_location(positions: &[(i32, i32)]) -> (r: Result<(), BoardError>)
    ensures
        r is Ok <==> all_in_bounds(positions@),
        r is Err ==> r == Err::<(), BoardError>(BoardError::OutOfBounds),
{
    let mut k: usize = 0;
    while k < positions.len()
        invariant
            k <= positions@.len(),
            all_in_bounds(positions@.subrange(0, k as int)),
        decreases positions@.len() - k,
    {
        let (row, col) = positions[k];
        if !is_within_bounds(row, col) {
            assert(!in_bounds(positions@[k as int].0 as int, positions@[k as int].1 as int));
            return Err(BoardError::OutOfBounds);
        }
        assert(all_in_bounds(positions@.subrange(0, k + 1))) by {
            assert forall|m: int| 0 <= m < k + 1 implies in_bounds(
                (#[trigger] positions@.subrange(0, k + 1)[m]).0 as int,
                positions@.subrange(0, k + 1)[m].1 as int,
            ) by {
                if m < k {
                    assert(positions@.subrange(0, k + 1)[m] == positions@.subrange(0, k as int)[m]);
                }
            }
        }
        k = k + 1;
    }
    assert(positions@.subrange(0, positions@.len() as int) == positions@);
    Ok(())
}

/// Display coordinates of the centre of grid cell `(row, col)`.
pub open spec fn grid_to_display(row: int, col: int) -> (int, int) {
    (GRID_START_ROW_PX + CELL_PX * row, GRID_START_COL_PX + CELL_PX * col)
}

/// Maps a grid cell to display coordinates; fails for a position off the grid.
pub fn px_from_grid_loc(position: (i32, i32)) -> (r: Result<(i32, i32), BoardError>)
    ensures
        in_bounds(position.0 as int, position.1 as int) ==> (r matches Ok(px) && px.0 as int
            == grid_to_display(position.0 as int, position.1 as int).0 && px.1 as int
            == grid_to_display(position.0 as int, position.1 as int).1),
        !in_bounds(position.0 as int, position.1 as int) ==> r == Err::<(i32, i32), BoardError>(
            BoardError::OutOfBounds,
        ),
{
    let (row, col) = position;
    if !is_within_bounds(row, col) {
        return Err(BoardError::OutOfBounds);
    }
    Ok((GRID_START_ROW_PX + CELL_PX * row, GRID_START_COL_PX + CELL_PX * col))
}

/// A row of cells as text: `'1'` for a filled cell, `'0'` for an empty one.
pub open spec fn row_text(r: Seq<bool>) -> Seq<char> {
    r.map_values(|b: bool| if b { '1' } else { '0' })
}

/// The rows of a grid as text, one line per row, lines joined by `'\n'`.
pub open spec fn grid_text(g: Seq<Seq<bool>>) -> Seq<char>
    decreases g.len(),
{
    if g.len() == 0 {
        Seq::empty()
    } else if g.len() == 1 {
        row_text(g[0])
    } else {
        grid_text(g.drop_last()) + seq!['\n'] + row_text(g.last())
    }
}

/// Relies on `String`'s `FromIterator<char>`: the characters in order.
#[verifier::external_body]
fn string_from_chars(chars: Vec<char>) -> (r: String)
    ensures
        r@ == chars@,
{
    chars.into_iter().collect()
}

/// The cells of a grid as text, one line of `'1'` and `'0'` per row.
pub fn arr2str(arr: &CellGrid) -> (r: String)
    ensures
        r@ == grid_text(grid_cells(*arr)),
{
    let (rows, cols) = arr.dim();
    let ghost g = grid_cells(*arr);
    let mut out: Vec<char> = Vec::new();
    let mut i: usize = 0;
    while i < rows
        invariant
            i <= rows,
            rows == g.len(),
            cols == grid_shape(*arr).1,
            rows == grid_shape(*arr).0,
            g == grid_cells(*arr),
            forall|k: int| 0 <= k < rows ==> (#[trigger] g[k]).len() == cols,
            out@ == grid_text(g.take(i as int)),
        decreases rows - i,
    {
        let ghost before = out@;
        if i > 0 {
            out.push('\n');
        }
        let mut j: usize = 0;
        while j < cols
            invariant
                i < rows,
                j <= cols,
                rows == g.len(),
                cols == grid_shape(*arr).1,
                rows == grid_shape(*arr).0,
                g == grid_cells(*arr),
                g[i as int].len() == cols,
                out@ == (if i > 0 { before + seq!['\n'] } else { before }) + row_text(g[i as int].take(j as int)),
            decreases cols - j,
        {
            let c = if arr.get(i, j) { '1' } else { '0' };
            proof {
                assert(row_text(g[i as int].take(j + 1)) =~= row_text(g[i as int].take(j as int)).push(c));
            }
            out.push(c);
            j = j + 1;
        }
        proof {
            assert(g[i as int].take(cols as int) =~= g[i as int]);
            let t = g.take(i + 1);
            assert(t.drop_last() =~= g.take(i as int));
            assert(t.last() == g[i as int]);
            if i == 0 {
                assert(t.len() == 1);
                assert(before =~= Seq::<char>::empty());
                assert(out@ =~= grid_text(t));
            } else {
                assert(out@ =~= grid_text(t));
            }
        }
        i = i + 1;
    }
    assert(g.take(rows as int) =~= g);
    string_from_chars(out)
}

} // verus!
