use crate::board_utils::BoardError;
use vstd::prelude::*;

verus! {

#[verifier::external_type_specification]
#[verifier::external_body]
pub struct ExShapeError(ndarray::ShapeError);

/// A rectangular grid of cells, `true` for a filled cell, kept in an `ndarray::Array2`.
#[verifier::external_body]
pub struct CellGrid {
    cells: ndarray::Array2<bool>,
}

/// The cells of a two-dimensional boolean array, row by row.
pub uninterp spec fn grid_cells(a: CellGrid) -> Seq<Seq<bool>>;

/// The (rows, columns) shape of a two-dimensional boolean array.
pub uninterp spec fn grid_shape(a: CellGrid) -> (nat, nat);

/// `g` has `rows` rows of `cols` cells each.
pub open spec fn is_rect(g: Seq<Seq<bool>>, rows: nat, cols: nat) -> bool {
    &&& g.len() == rows
    &&& forall|i: int| 0 <= i < rows ==> (#[trigger] g[i]).len() == cols
}

/// The array's cells, rectangular in its shape.
pub open spec fn grid_ok(a: CellGrid) -> bool {
    is_rect(grid_cells(a), grid_shape(a).0, grid_shape(a).1)
}

/// `v` read row by row into `rows` rows of `cols` cells.
pub open spec fn chunked(v: Seq<bool>, rows: nat, cols: nat) -> Seq<Seq<bool>> {
    Seq::new(rows, |i: int| Seq::new(cols, |j: int| v[i * cols + j]))
}

/// The product of the non-zero axis lengths of a `rows` x `cols` shape fits in `isize`.
pub open spec fn shape_fits(rows: nat, cols: nat) -> bool {
    (if rows == 0 { 1 } else { rows }) * (if cols == 0 { 1 } else { cols }) <= isize::MAX
}

/// The transpose of a `rows` x `cols` grid.
pub open spec fn transpose(g: Seq<Seq<bool>>, rows: nat, cols: nat) -> Seq<Seq<bool>> {
    Seq::new(cols, |i: int| Seq::new(rows, |j: int| g[j][i]))
}

/// Relies on `ArrayBase::dim`: the lengths of the two axes, over which the array is rectangular.
#[verifier::external_body]
pub(crate) fn grid_dim(a: &CellGrid) -> (r: (usize, usize))
    ensures
        r.0 as nat == grid_shape(*a).0,
        r.1 as nat == grid_shape(*a).1,
        is_rect(grid_cells(*a), r.0 as nat, r.1 as nat),
{
    a.cells.dim()
}

/// Relies on indexing `ArrayBase` by `[row, col]`, which panics out of bounds.
#[verifier::external_body]
pub(crate) fn grid_get(a: &CellGrid, i: usize, j: usize) -> (r: bool)
    requires
        i < grid_shape(*a).0,
        j < grid_shape(*a).1,
    ensures
        r == grid_cells(*a)[i as int][j as int],
{
    a.cells[[i, j]]
}

/// Relies on mutable indexing of `ArrayBase` by `[row, col]`: one cell is overwritten.
#[verifier::external_body]
pub(crate) fn grid_set(a: &mut CellGrid, i: usize, j: usize, v: bool)
    requires
        i < grid_shape(*old(a)).0,
        j < grid_shape(*old(a)).1,
    ensures
        grid_shape(*final(a)) == grid_shape(*old(a)),
        grid_cells(*final(a)) == grid_cells(*old(a)).update(
            i as int,
            grid_cells(*old(a))[i as int].update(j as int, v),
        ),
{
    a.cells[[i, j]] = v;
}

/// Relies on `ArrayBase::t` and `ArrayBase::to_owned`: an owned copy of the transposed array.
#[verifier::external_body]
pub(crate) fn grid_transposed(a: &CellGrid) -> (r: CellGrid)
    requires
        grid_ok(*a),
    ensures
        grid_shape(r) == (grid_shape(*a).1, grid_shape(*a).0),
        grid_ok(r),
        grid_cells(r) == transpose(grid_cells(*a), grid_shape(*a).0, grid_shape(*a).1),
{
    CellGrid { cells: a.cells.t().to_owned() }
}

/// Relies on `Clone` of `ArrayBase`: an array with the same shape and cells.
#[verifier::external_body]
pub(crate) fn grid_clone(a: &CellGrid) -> (r: CellGrid)
    ensures
        grid_shape(r) == grid_shape(*a),
        grid_cells(r) == grid_cells(*a),
{
    CellGrid { cells: a.cells.clone() }
}

/// Relies on `ArrayBase::from_shape_vec` with a row-major `(rows, cols)` shape:
/// it fails exactly when the product of the non-zero axis lengths exceeds
/// `isize::MAX`, or the element count differs from `rows * cols`.
#[verifier::external_body]
pub(crate) fn grid_from_shape_vec(rows: usize, cols: usize, v: Vec<bool>) -> (r: Result<
    CellGrid,
    ndarray::ShapeError,
>)
    ensures
        r is Ok <==> (rows * cols == v@.len() && shape_fits(rows as nat, cols as nat)),
        r matches Ok(a) ==> {
            &&& grid_shape(a) == (rows as nat, cols as nat)
            &&& grid_cells(a) == chunked(v@, rows as nat, cols as nat)
        },
{
    ndarray::Array2::from_shape_vec((rows, cols), v).map(|cells| CellGrid { cells })
}

impl CellGrid {
    /// Builds a `rows` x `cols` grid from `cells` read row by row; fails with
    /// `InvalidShape` when the count of cells is not `rows * cols`, or the shape
    /// is too large for `isize`.
    pub fn from_shape_vec(rows: usize, cols: usize, cells: Vec<bool>) -> (r: Result<CellGrid, BoardError>)
        ensures
            r is Ok <==> (rows * cols == cells@.len() && shape_fits(rows as nat, cols as nat)),
            r is Err ==> r == Err::<CellGrid, BoardError>(BoardError::InvalidShape),
            r matches Ok(g) ==> {
                &&& grid_shape(g) == (rows as nat, cols as nat)
                &&& grid_cells(g) == chunked(cells@, rows as nat, cols as nat)
            },
    {
        match grid_from_shape_vec(rows, cols, cells) {
            Ok(g) => Ok(g),
            Err(_) => Err(BoardError::InvalidShape),
        }
    }

    /// The count of rows and of columns.
    pub fn dim(&self) -> (r: (usize, usize))
        ensures
            (r.0 as nat, r.1 as nat) == grid_shape(*self),
            grid_ok(*self),
    {
        grid_dim(self)
    }

    /// The cell at `(i, j)`.
    pub fn get(&self, i: usize, j: usize) -> (r: bool)
        requires
            i < grid_shape(*self).0,
            j < grid_shape(*self).1,
        ensures
            r == grid_cells(*self)[i as int][j as int],
    {
        grid_get(self, i, j)
    }
}

} // verus!
