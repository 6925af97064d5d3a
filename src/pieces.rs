use crate::board_utils::{BoardError, GRID_COLS, GRID_ROWS};
use crate::grid::{
    chunked, grid_cells, grid_clone, grid_dim, grid_get, grid_set, grid_shape, grid_transposed,
    is_rect, CellGrid,
};
use vstd::prelude::*;

verus! {

/// Row `r` read from its last cell to its first.
pub open spec fn reversed(r: Seq<bool>) -> Seq<bool> {
    Seq::new(r.len(), |k: int| r[r.len() - 1 - k])
}

/// A `rows` x `cols` grid turned a quarter turn clockwise: it has `cols` rows of
/// `rows` cells, and its cell `(i, j)` is the old cell `(rows - 1 - j, i)`.
pub open spec fn rotated(g: Seq<Seq<bool>>, rows: nat, cols: nat) -> Seq<Seq<bool>> {
    Seq::new(cols, |i: int| Seq::new(rows, |j: int| g[rows - 1 - j][i]))
}

/// A puzzle piece: a grid of filled and empty cells, its anchor on the board,
/// and whether the player is moving it.
pub struct BasePiece {
    piece: CellGrid,
    board_pos_row: usize,
    board_pos_col: usize,
    active: bool,
}

impl BasePiece {
    /// The cells of the piece, row by row.
    pub closed spec fn shape(&self) -> Seq<Seq<bool>> {
        grid_cells(self.piece)
    }

    /// The count of rows of the shape.
    pub closed spec fn height(&self) -> nat {
        grid_shape(self.piece).0
    }

    /// The count of columns of the shape.
    pub closed spec fn width(&self) -> nat {
        grid_shape(self.piece).1
    }

    /// The anchor row on the board.
    pub closed spec fn anchor_row(&self) -> nat {
        self.board_pos_row as nat
    }

    /// The anchor column on the board.
    pub closed spec fn anchor_col(&self) -> nat {
        self.board_pos_col as nat
    }

    /// Whether the piece is the one under the player's control.
    pub closed spec fn active_flag(&self) -> bool {
        self.active
    }

    /// A non-empty rectangular shape.
    pub closed spec fn wf(&self) -> bool {
        &&& is_rect(grid_cells(self.piece), grid_shape(self.piece).0, grid_shape(self.piece).1)
        &&& grid_shape(self.piece).0 > 0
        &&& grid_shape(self.piece).1 > 0
    }

    /// `self` and `other` agree in shape, anchor and active flag.
    pub open spec fn same_as(&self, other: &BasePiece) -> bool {
        &&& self.shape() == other.shape()
        &&& self.height() == other.height()
        &&& self.width() == other.width()
        &&& self.anchor_row() == other.anchor_row()
        &&& self.anchor_col() == other.anchor_col()
        &&& self.active_flag() == other.active_flag()
    }

    /// A piece of the given shape, anchored at `(0, 0)` and inactive; fails with
    /// `InvalidShape` when the shape has no rows or no columns.
    pub fn new(piece: CellGrid) -> (r: Result<BasePiece, BoardError>)
        ensures
            r is Ok <==> grid_shape(piece).0 > 0 && grid_shape(piece).1 > 0,
            r is Err ==> r == Err::<BasePiece, BoardError>(BoardError::InvalidShape),
            r matches Ok(p) ==> {
                &&& p.wf()
                &&& p.shape() == grid_cells(piece)
                &&& p.height() == grid_shape(piece).0
                &&& p.width() == grid_shape(piece).1
                &&& p.anchor_row() == 0
                &&& p.anchor_col() == 0
                &&& !p.active_flag()
            },
    {
        let (rows, cols) = grid_dim(&piece);
        if rows == 0 || cols == 0 {
            return Err(BoardError::InvalidShape);
        }
        Ok(BasePiece { piece, board_pos_row: 0, board_pos_col: 0, active: false })
    }

    /// A copy of the piece.
    pub fn duplicate(&self) -> (r: BasePiece)
        ensures
            r.same_as(self),
            self.wf() ==> r.wf(),
    {
        BasePiece {
            piece: grid_clone(&self.piece),
            board_pos_row: self.board_pos_row,
            board_pos_col: self.board_pos_col,
            active: self.active,
        }
    }

    /// Moves the anchor one row up, staying put at the top row.
    pub fn shift_up(&mut self)
        ensures
            final(self).anchor_row() == if old(self).anchor_row() > 0 {
                (old(self).anchor_row() - 1) as nat
            } else {
                0
            },
            final(self).anchor_col() == old(self).anchor_col(),
            final(self).shape() == old(self).shape(),
            final(self).height() == old(self).height(),
            final(self).width() == old(self).width(),
            final(self).active_flag() == old(self).active_flag(),
            final(self).wf() == old(self).wf(),
    {
        if self.board_pos_row > 0 {
            self.board_pos_row = self.board_pos_row - 1;
        }
    }

    /// Moves the anchor one row down while it is above the grid's row count.
    pub fn shift_down(&mut self)
        ensures
            final(self).anchor_row() == if old(self).anchor_row() < GRID_ROWS {
                old(self).anchor_row() + 1
            } else {
                old(self).anchor_row()
            },
            final(self).anchor_col() == old(self).anchor_col(),
            final(self).shape() == old(self).shape(),
            final(self).height() == old(self).height(),
            final(self).width() == old(self).width(),
            final(self).active_flag() == old(self).active_flag(),
            final(self).wf() == old(self).wf(),
    {
        if self.board_pos_row < GRID_ROWS {
            self.board_pos_row = self.board_pos_row + 1;
        }
    }

    /// Moves the anchor one column left, staying put at the left column.
    pub fn shift_left(&mut self)
        ensures
            final(self).anchor_col() == if old(self).anchor_col() > 0 {
                (old(self).anchor_col() - 1) as nat
            } else {
                0
            },
            final(self).anchor_row() == old(self).anchor_row(),
            final(self).shape() == old(self).shape(),
            final(self).height() == old(self).height(),
            final(self).width() == old(self).width(),
            final(self).active_flag() == old(self).active_flag(),
            final(self).wf() == old(self).wf(),
    {
        if self.board_pos_col > 0 {
            self.board_pos_col = self.board_pos_col - 1;
        }
    }

    /// Moves the anchor one column right while it is left of the grid's column count.
    pub fn shift_right(&mut self)
        ensures
            final(self).anchor_col() == if old(self).anchor_col() < GRID_COLS {
                old(self).anchor_col() + 1
            } else {
                old(self).anchor_col()
            },
            final(self).anchor_row() == old(self).anchor_row(),
            final(self).shape() == old(self).shape(),
            final(self).height() == old(self).height(),
            final(self).width() == old(self).width(),
            final(self).active_flag() == old(self).active_flag(),
            final(self).wf() == old(self).wf(),
    {
        if self.board_pos_col < GRID_COLS {
            self.board_pos_col = self.board_pos_col + 1;
        }
    }

    /// Sets the active flag.
    pub fn set_active(&mut self, active: bool)
        ensures
            final(self).active_flag() == active,
            final(self).anchor_row() == old(self).anchor_row(),
            final(self).anchor_col() == old(self).anchor_col(),
            final(self).shape() == old(self).shape(),
            final(self).height() == old(self).height(),
            final(self).width() == old(self).width(),
            final(self).wf() == old(self).wf(),
    {
        self.active = active;
    }

    /// Whether the piece is the one under the player's control.
    pub fn is_active(&self) -> (r: bool)
        ensures
            r == self.active_flag(),
    {
        self.active
    }

    /// The shape's grid.
    pub fn cells(&self) -> (r: &CellGrid)
        ensures
            grid_cells(*r) == self.shape(),
            grid_shape(*r) == (self.height(), self.width()),
    {
        &self.piece
    }

    /// The anchor as `(row, col)`.
    pub fn anchor(&self) -> (r: (usize, usize))
        ensures
            r.0 as nat == self.anchor_row(),
            r.1 as nat == self.anchor_col(),
    {
        (self.board_pos_row, self.board_pos_col)
    }

    /// Turns the shape a quarter turn clockwise: transposes it, then reverses each row.
    pub fn rotate(&mut self)
        requires
            old(self).wf(),
        ensures
            final(self).wf(),
            final(self).height() == old(self).width(),
            final(self).width() == old(self).height(),
            final(self).shape() == rotated(old(self).shape(), old(self).height(), old(self).width()),
            final(self).anchor_row() == old(self).anchor_row(),
            final(self).anchor_col() == old(self).anchor_col(),
            final(self).active_flag() == old(self).active_flag(),
    {
        let ghost g = grid_cells(self.piece);
        let ghost h = grid_shape(self.piece).0;
        let ghost w = grid_shape(self.piece).1;
        let transposed = grid_transposed(&self.piece);
        let ghost t = grid_cells(transposed);
        let (rows, cols) = grid_dim(&transposed);
        let mut result = transposed;
        let mut i: usize = 0;
        while i < rows
            invariant
                0 <= i <= rows,
                grid_shape(result) == (rows as nat, cols as nat),
                is_rect(t, rows as nat, cols as nat),
                grid_cells(result).len() == rows,
                forall|r: int| 0 <= r < i ==> #[trigger] grid_cells(result)[r] == reversed(t[r]),
                forall|r: int| i <= r < rows ==> #[trigger] grid_cells(result)[r] == t[r],
            decreases rows - i,
        {
            let mut j: usize = 0;
            while j < cols / 2
                invariant
                    0 <= i < rows,
                    0 <= j <= cols / 2,
                    grid_shape(result) == (rows as nat, cols as nat),
                    is_rect(t, rows as nat, cols as nat),
                    grid_cells(result).len() == rows,
                    grid_cells(result)[i as int].len() == cols,
                    forall|r: int| 0 <= r < i ==> #[trigger] grid_cells(result)[r] == reversed(t[r]),
                    forall|r: int| i < r < rows ==> #[trigger] grid_cells(result)[r] == t[r],
                    forall|k: int|
                        0 <= k < cols ==> #[trigger] grid_cells(result)[i as int][k] == if k < j || k
                            >= cols - j {
                            t[i as int][cols - 1 - k]
                        } else {
                            t[i as int][k]
                        },
                decreases cols / 2 - j,
            {
                let a = grid_get(&result, i, j);
                let b = grid_get(&result, i, cols - 1 - j);
                grid_set(&mut result, i, j, b);
                grid_set(&mut result, i, cols - 1 - j, a);
                j = j + 1;
            }
            assert(grid_cells(result)[i as int] =~= reversed(t[i as int]));
            i = i + 1;
        }
        proof {
            assert forall|r: int| 0 <= r < w implies #[trigger] grid_cells(result)[r] == rotated(g, h, w)[r] by {
                assert(grid_cells(result)[r] =~= rotated(g, h, w)[r]);
            }
            assert(grid_cells(result) =~= rotated(g, h, w));
        }
        self.piece = result;
    }
}

/// The kinds of piece in the catalog.
#[derive(Debug, Clone, Copy, PartialEq, Eq, Hash, Structural)]
pub enum PieceType {
    LPiece,
    SqPiece,
    Str4Piece,
    Str3Piece,
    Str2Piece,
    Str1Piece,
    ZPiece,
    TPiece,
    CornerPiece,
}

/// The entry after index `i` in a cycle of `n` entries.
pub open spec fn next_index(i: int, n: nat) -> int {
    if i + 1 < n {
        i + 1
    } else {
        0
    }
}

/// The catalog of piece templates, in a fixed cycling order, with a cursor on
/// the current one.
pub struct PieceMap {
    entries: Vec<(PieceType, BasePiece)>,
    current_type: Option<PieceType>,
}

impl Default for PieceMap {
    /// An empty catalog, with no cursor.
    fn default() -> (r: PieceMap)
        ensures
            r.wf(),
            r.order().len() == 0,
            r.templates().len() == 0,
            r.current() is None,
    {
        PieceMap { entries: Vec::new(), current_type: None }
    }
}

impl PieceMap {
    /// The kinds of piece in cycling order.
    pub closed spec fn order(&self) -> Seq<PieceType> {
        self.entries@.map_values(|e: (PieceType, BasePiece)| e.0)
    }

    /// The templates, aligned with `order`.
    pub closed spec fn templates(&self) -> Seq<BasePiece> {
        self.entries@.map_values(|e: (PieceType, BasePiece)| e.1)
    }

    /// The kind under the cursor.
    pub closed spec fn current(&self) -> Option<PieceType> {
        self.current_type
    }

    /// The position of the current kind in `order`.
    pub open spec fn current_index(&self) -> int {
        self.order().index_of(self.current().unwrap())
    }

    /// The template under the cursor.
    pub open spec fn current_template(&self) -> BasePiece {
        self.templates()[self.current_index()]
    }

    /// Kinds are unique, templates well formed, and the cursor is on a kind of
    /// the catalog exactly when the catalog is not empty.
    pub open spec fn wf(&self) -> bool {
        &&& self.order().len() == self.templates().len()
        &&& self.order().no_duplicates()
        &&& forall|i: int| 0 <= i < self.templates().len() ==> (#[trigger] self.templates()[i]).wf()
        &&& (self.current() is None <==> self.order().len() == 0)
        &&& (self.current() matches Some(k) ==> self.order().contains(k))
    }

    /// A catalog over `entries` in their order, with the cursor on the first.
    pub fn new(entries: Vec<(PieceType, BasePiece)>) -> (r: PieceMap)
        requires
            forall|i: int, j: int|
                0 <= i < j < entries@.len() ==> (#[trigger] entries@[i]).0 != (#[trigger] entries@[j]).0,
            forall|i: int| 0 <= i < entries@.len() ==> (#[trigger] entries@[i]).1.wf(),
        ensures
            r.wf(),
            r.order() == entries@.map_values(|e: (PieceType, BasePiece)| e.0),
            r.templates() == entries@.map_values(|e: (PieceType, BasePiece)| e.1),
            entries@.len() > 0 ==> r.current() == Some(entries@[0].0),
    {
        let current_type = if entries.len() > 0 {
            Some(entries[0].0)
        } else {
            None
        };
        let r = PieceMap { entries, current_type };
        proof {
            if r.entries@.len() > 0 {
                assert(r.order()[0] == r.entries@[0].0);
            }
        }
        r
    }

    /// The count of kinds in the catalog.
    pub fn len(&self) -> (r: usize)
        ensures
            r == self.order().len(),
    {
        self.entries.len()
    }

    /// The kind at position `i` of the cycling order.
    pub fn key_at(&self, i: usize) -> (r: PieceType)
        requires
            i < self.order().len(),
        ensures
            r == self.order()[i as int],
    {
        self.entries[i].0
    }

    /// The kind under the cursor.
    pub fn current_type(&self) -> (r: Option<PieceType>)
        ensures
            r == self.current(),
    {
        self.current_type
    }

    /// The position of the current kind, found by a scan of the order.
    fn find_current(&self) -> (r: usize)
        requires
            self.wf(),
            self.order().len() > 0,
        ensures
            r as int == self.current_index(),
            r < self.order().len(),
    {
        let ghost ord = self.order();
        let cur = self.current_type.unwrap();
        let mut i: usize = 0;
        while i < self.entries.len()
            invariant
                ord == self.order(),
                self.wf(),
                self.current() == Some(cur),
                i <= self.entries@.len(),
                forall|m: int| 0 <= m < i ==> ord[m] != cur,
            decreases self.entries@.len() - i,
        {
            if self.entries[i].0 == cur {
                proof {
                    assert(ord[i as int] == cur);
                    let k = ord.index_of(cur);
                    assert(ord.contains(cur));
                    assert(0 <= k < ord.len() && ord[k] == cur);
                    if k != i {
                        assert(ord[k] == ord[i as int]);
                    }
                }
                return i;
            }
            assert(ord[i as int] == self.entries@[i as int].0);
            i = i + 1;
        }
        proof {
            let k = ord.index_of(cur);
            assert(ord.contains(cur));
            assert(ord[k] == cur);
        }
        0
    }

    /// Moves the cursor to the next kind, wrapping after the last, and returns
    /// its template; an empty catalog gives `None` and stays as it is.
    pub fn next_piece(&mut self) -> (r: Option<&BasePiece>)
        requires
            old(self).wf(),
        ensures
            final(self).wf(),
            final(self).order() == old(self).order(),
            final(self).templates() == old(self).templates(),
            old(self).order().len() == 0 ==> r is None && final(self).current() == old(self).current(),
            old(self).order().len() > 0 ==> {
                let ni = next_index(old(self).current_index(), old(self).order().len());
                &&& final(self).current() == Some(old(self).order()[ni])
                &&& final(self).current_index() == ni
                &&& r matches Some(p) && *p == old(self).templates()[ni]
            },
    {
        if self.entries.len() == 0 {
            return None;
        }
        let current_index = self.find_current();
        let next = (current_index + 1) % self.entries.len();
        proof {
            let n = self.entries@.len() as nat;
            if current_index + 1 < n {
                vstd::arithmetic::div_mod::lemma_small_mod((current_index + 1) as nat, n);
            } else {
                vstd::arithmetic::div_mod::lemma_mod_self_0(n as int);
            }
        }
        let key = self.entries[next].0;
        self.current_type = Some(key);
        proof {
            let ord = self.order();
            assert(ord[next as int] == key);
            assert(ord.contains(key));
            let k = ord.index_of(key);
            assert(ord[k] == key);
        }
        Some(&self.entries[next].1)
    }

    /// The template under the cursor, or `None` for an empty catalog.
    pub fn current_piece(&self) -> (r: Option<&BasePiece>)
        requires
            self.wf(),
        ensures
            self.order().len() == 0 ==> r is None,
            self.order().len() > 0 ==> (r matches Some(p) && *p == self.current_template()),
    {
        if self.entries.len() == 0 {
            return None;
        }
        let i = self.find_current();
        Some(&self.entries[i].1)
    }

    /// Turns the current template a quarter turn in place, so that it stays
    /// turned when picked again; an empty catalog stays as it is.
    pub fn rotate_current(&mut self)
        requires
            old(self).wf(),
        ensures
            final(self).wf(),
            final(self).order() == old(self).order(),
            final(self).current() == old(self).current(),
            old(self).order().len() == 0 ==> final(self).templates() == old(self).templates(),
            old(self).order().len() > 0 ==> {
                let c = old(self).current_template();
                let ci = old(self).current_index();
                let p = final(self).current_template();
                &&& forall|i: int|
                    0 <= i < old(self).templates().len() && i != ci ==> final(self).templates()[i]
                        == old(self).templates()[i]
                &&& p.shape() == rotated(c.shape(), c.height(), c.width())
                &&& p.height() == c.width()
                &&& p.width() == c.height()
                &&& p.anchor_row() == c.anchor_row()
                &&& p.anchor_col() == c.anchor_col()
                &&& p.active_flag() == c.active_flag()
                &&& p.wf()
            },
    {
        if self.entries.len() == 0 {
            return;
        }
        let i = self.find_current();
        let key = self.entries[i].0;
        let mut p = self.entries[i].1.duplicate();
        proof {
            assert(self.templates()[i as int] == self.entries@[i as int].1);
        }
        p.rotate();
        let ghost old_entries = self.entries@;
        self.entries.set(i, (key, p));
        proof {
            assert(self.order() =~= old(self).order());
            assert forall|m: int| 0 <= m < self.templates().len() implies (#[trigger] self.templates()[m]).wf() by {
                if m != i {
                    assert(self.templates()[m] == old(self).templates()[m]);
                }
            }
        }
    }
}

/// The cycling order of the default catalog.
pub open spec fn default_order() -> Seq<PieceType> {
    seq![
        PieceType::LPiece,
        PieceType::SqPiece,
        PieceType::Str4Piece,
        PieceType::Str3Piece,
        PieceType::Str2Piece,
        PieceType::Str1Piece,
        PieceType::ZPiece,
        PieceType::TPiece,
        PieceType::CornerPiece,
    ]
}

/// Rows, columns and row-major cells of each kind's starting shape.
pub open spec fn default_layout(t: PieceType) -> (nat, nat, Seq<bool>) {
    match t {
        PieceType::LPiece => (3, 2, seq![true, true, false, true, false, true]),
        PieceType::SqPiece => (2, 2, seq![true, true, true, true]),
        PieceType::Str4Piece => (1, 4, seq![true, true, true, true]),
        PieceType::Str3Piece => (1, 3, seq![true, true, true]),
        PieceType::Str2Piece => (1, 2, seq![true, true]),
        PieceType::Str1Piece => (1, 1, seq![true]),
        PieceType::ZPiece => (3, 2, seq![true, false, true, true, false, true]),
        PieceType::TPiece => (3, 2, seq![true, false, true, true, true, false]),
        PieceType::CornerPiece => (2, 2, seq![true, true, true, false]),
    }
}

/// `p` is the unplaced, inactive template of kind `t`.
pub open spec fn is_default_template(p: BasePiece, t: PieceType) -> bool {
    let (h, w, c) = default_layout(t);
    &&& p.wf()
    &&& p.height() == h
    &&& p.width() == w
    &&& p.shape() == chunked(c, h, w)
    &&& p.anchor_row() == 0
    &&& p.anchor_col() == 0
    &&& !p.active_flag()
}

/// An unplaced, inactive piece of `rows` x `cols` cells given row by row.
fn template(t: PieceType, rows: usize, cols: usize, cells: Vec<bool>) -> (r: BasePiece)
    requires
        default_layout(t) == (rows as nat, cols as nat, cells@),
        rows > 0,
        cols > 0,
        rows * cols == cells@.len(),
    ensures
        is_default_template(r, t),
{
    let g = CellGrid::from_shape_vec(rows, cols, cells).unwrap();
    BasePiece::new(g).unwrap()
}

/// The default catalog of nine kinds, in `default_order`, with the cursor on the first.
pub fn gen_pieces() -> (r: PieceMap)
    ensures
        r.wf(),
        r.order() == default_order(),
        r.current() == Some(PieceType::LPiece),
        forall|i: int| 0 <= i < 9 ==> is_default_template(#[trigger] r.templates()[i], default_order()[i]),
{
    let mut entries: Vec<(PieceType, BasePiece)> = Vec::new();
    entries.push((PieceType::LPiece, template(PieceType::LPiece, 3, 2, vec![true, true, false, true, false, true])));
    entries.push((PieceType::SqPiece, template(PieceType::SqPiece, 2, 2, vec![true, true, true, true])));
    entries.push((PieceType::Str4Piece, template(PieceType::Str4Piece, 1, 4, vec![true, true, true, true])));
    entries.push((PieceType::Str3Piece, template(PieceType::Str3Piece, 1, 3, vec![true, true, true])));
    entries.push((PieceType::Str2Piece, template(PieceType::Str2Piece, 1, 2, vec![true, true])));
    let single = vec![true];
    assert(single@ =~= seq![true]);
    entries.push((PieceType::Str1Piece, template(PieceType::Str1Piece, 1, 1, single)));
    entries.push((PieceType::ZPiece, template(PieceType::ZPiece, 3, 2, vec![true, false, true, true, false, true])));
    entries.push((PieceType::TPiece, template(PieceType::TPiece, 3, 2, vec![true, false, true, true, true, false])));
    entries.push((PieceType::CornerPiece, template(PieceType::CornerPiece, 2, 2, vec![true, true, true, false])));
    let ghost keys = entries@.map_values(|e: (PieceType, BasePiece)| e.0);
    proof {
        assert(keys =~= default_order());
        assert forall|i: int, j: int|
            0 <= i < j < entries@.len() implies (#[trigger] entries@[i]).0 != (#[trigger] entries@[j]).0 by {
            assert(keys[i] == entries@[i].0);
            assert(keys[j] == entries@[j].0);
        }
    }
    let r = PieceMap::new(entries);
    proof {
        assert forall|i: int| 0 <= i < 9 implies is_default_template(#[trigger] r.templates()[i], default_order()[i]) by {
            assert(keys[i] == entries@[i].0);
        }
    }
    r
}

} // verus!
