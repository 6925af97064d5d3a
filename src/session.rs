use crate::pieces::{next_index, rotated, BasePiece, PieceMap};
use vstd::prelude::*;

verus! {

/// Display x of the entry point where a new piece appears.
pub const ENTRY_X: i32 = -450;

/// Display y of the entry point where a new piece appears.
pub const ENTRY_Y: i32 = 0;

/// Display distance of one move.
pub const MOVE_PX: i32 = 100;

/// A direction of movement on the board.
#[derive(Debug, Clone, Copy, PartialEq, Eq, Structural)]
pub enum Direction {
    Up,
    Down,
    Left,
    Right,
}

/// A piece placed on the board, with its display position.
pub struct PlacedPiece {
    pub piece: BasePiece,
    pub x: i32,
    pub y: i32,
}

/// What the renderer has to do after an advance or a rotation: remove the
/// previously active piece, and show the new active piece.
#[derive(Debug, Clone, Copy, PartialEq, Eq, Structural)]
pub struct Transition {
    pub removed: bool,
    pub spawned: bool,
}

/// `v` moved by `d`, held within the range of `i32`.
pub open spec fn shifted(v: int, d: int) -> int {
    if v + d > i32::MAX {
        i32::MAX as int
    } else if v + d < i32::MIN {
        i32::MIN as int
    } else {
        v + d
    }
}

/// The display change of a move in `dir`, as `(dx, dy)`.
pub open spec fn display_step(dir: Direction) -> (int, int) {
    match dir {
        Direction::Up => (0, MOVE_PX as int),
        Direction::Down => (0, -MOVE_PX),
        Direction::Left => (-MOVE_PX, 0),
        Direction::Right => (MOVE_PX as int, 0),
    }
}

/// `v` moved by `d`, held within the range of `i32`.
fn shift_px(v: i32, d: i32) -> (r: i32)
    ensures
        r as int == shifted(v as int, d as int),
{
    if d > 0 && v > i32::MAX - d {
        i32::MAX
    } else if d < 0 && v < i32::MIN - d {
        i32::MIN
    } else {
        v + d
    }
}

/// `p` is an active copy of `t` (in shape and anchor) shown at `(x, y)`.
pub open spec fn placed_copy_of(p: PlacedPiece, t: BasePiece, x: int, y: int) -> bool {
    &&& p.piece.wf()
    &&& p.piece.shape() == t.shape()
    &&& p.piece.height() == t.height()
    &&& p.piece.width() == t.width()
    &&& p.piece.anchor_row() == t.anchor_row()
    &&& p.piece.anchor_col() == t.anchor_col()
    &&& p.piece.active_flag()
    &&& p.x == x
    &&& p.y == y
}

/// The state of play: the catalog, and the one piece, if any, under the
/// player's control.
pub struct Session {
    catalog: PieceMap,
    active: Option<PlacedPiece>,
}

impl Session {
    /// The catalog.
    pub closed spec fn catalog_state(&self) -> PieceMap {
        self.catalog
    }

    /// The active placed piece.
    pub closed spec fn active_state(&self) -> Option<PlacedPiece> {
        self.active
    }

    /// The catalog is well formed, and the active piece, if any, is well formed and active.
    pub open spec fn wf(&self) -> bool {
        &&& self.catalog_state().wf()
        &&& (self.active_state() matches Some(p) ==> p.piece.wf() && p.piece.active_flag())
    }

    /// A session over `catalog` with no piece in play.
    pub fn new(catalog: PieceMap) -> (r: Session)
        requires
            catalog.wf(),
        ensures
            r.wf(),
            r.catalog_state() == catalog,
            r.active_state() is None,
    {
        Session { catalog, active: None }
    }

    /// The catalog.
    pub fn catalog(&self) -> (r: &PieceMap)
        ensures
            *r == self.catalog_state(),
    {
        &self.catalog
    }

    /// The active placed piece, if any.
    pub fn active_piece(&self) -> (r: Option<&PlacedPiece>)
        ensures
            self.active_state() is None ==> r is None,
            self.active_state() matches Some(p) ==> (r matches Some(q) && *q == p),
    {
        match &self.active {
            Some(p) => Some(p),
            None => None,
        }
    }

    /// Advance: the active piece, if any, is taken off; the catalog moves to
    /// its next kind, and an active copy of that template is shown at the entry point.
    pub fn handle_next_piece(&mut self) -> (r: Transition)
        requires
            old(self).wf(),
        ensures
            final(self).wf(),
            r.removed == old(self).active_state() is Some,
            final(self).catalog_state().order() == old(self).catalog_state().order(),
            final(self).catalog_state().templates() == old(self).catalog_state().templates(),
            old(self).catalog_state().order().len() == 0 ==> {
                &&& !r.spawned
                &&& final(self).active_state() is None
                &&& final(self).catalog_state().current() == old(self).catalog_state().current()
            },
            old(self).catalog_state().order().len() > 0 ==> {
                let c = old(self).catalog_state();
                let ni = next_index(c.current_index(), c.order().len());
                &&& r.spawned
                &&& final(self).catalog_state().current() == Some(c.order()[ni])
                &&& final(self).active_state() matches Some(p) && placed_copy_of(
                    p,
                    c.templates()[ni],
                    ENTRY_X as int,
                    ENTRY_Y as int,
                )
            },
    {
        let removed = self.active.is_some();
        self.active = None;
        match self.catalog.next_piece() {
            Some(next) => {
                let mut piece = next.duplicate();
                piece.set_active(true);
                self.active = Some(PlacedPiece { piece, x: ENTRY_X, y: ENTRY_Y });
                Transition { removed, spawned: true }
            },
            None => Transition { removed, spawned: false },
        }
    }

    /// Rotate: the active piece, if any, is taken off; the current template is
    /// turned a quarter turn in the catalog, and an active copy of it is shown
    /// where the removed piece stood (at the entry point when none was active).
    pub fn handle_rotation(&mut self) -> (r: Transition)
        requires
            old(self).wf(),
        ensures
            final(self).wf(),
            r.removed == old(self).active_state() is Some,
            final(self).catalog_state().order() == old(self).catalog_state().order(),
            final(self).catalog_state().current() == old(self).catalog_state().current(),
            old(self).catalog_state().order().len() == 0 ==> {
                &&& !r.spawned
                &&& final(self).active_state() is None
            },
            old(self).catalog_state().order().len() > 0 ==> {
                let c = old(self).catalog_state().current_template();
                let t = final(self).catalog_state().current_template();
                let (x, y) = match old(self).active_state() {
                    Some(p) => (p.x as int, p.y as int),
                    None => (ENTRY_X as int, ENTRY_Y as int),
                };
                let ci = old(self).catalog_state().current_index();
                let before = old(self).catalog_state().templates();
                let after = final(self).catalog_state().templates();
                &&& r.spawned
                &&& after.len() == before.len()
                &&& forall|i: int| 0 <= i < before.len() && i != ci ==> after[i] == before[i]
                &&& t.wf()
                &&& t.shape() == rotated(c.shape(), c.height(), c.width())
                &&& t.height() == c.width()
                &&& t.width() == c.height()
                &&& t.anchor_row() == c.anchor_row()
                &&& t.anchor_col() == c.anchor_col()
                &&& t.active_flag() == c.active_flag()
                &&& final(self).active_state() matches Some(p) && placed_copy_of(p, t, x, y)
            },
    {
        let (x, y) = match &self.active {
            Some(p) => (p.x, p.y),
            None => (ENTRY_X, ENTRY_Y),
        };
        let removed = self.active.is_some();
        self.active = None;
        self.catalog.rotate_current();
        match self.catalog.current_piece() {
            Some(current) => {
                let mut piece = current.duplicate();
                piece.set_active(true);
                self.active = Some(PlacedPiece { piece, x, y });
                Transition { removed, spawned: true }
            },
            None => Transition { removed, spawned: false },
        }
    }

    /// Move: the active piece, if any, shifts its anchor one cell in `dir` and
    /// its display position one step; returns whether a piece was moved.
    pub fn handle_keyboard_input(&mut self, dir: Direction) -> (r: bool)
        requires
            old(self).wf(),
        ensures
            final(self).wf(),
            r == old(self).active_state() is Some,
            final(self).catalog_state() == old(self).catalog_state(),
            old(self).active_state() is None ==> final(self).active_state() is None,
            old(self).active_state() matches Some(p) ==> (final(self).active_state() matches Some(q)
                && q.x == shifted(p.x as int, display_step(dir).0) && q.y == shifted(
                p.y as int,
                display_step(dir).1,
            ) && q.piece.shape() == p.piece.shape() && q.piece.height() == p.piece.height()
                && q.piece.width() == p.piece.width() && q.piece.active_flag() && match dir {
                Direction::Up => q.piece.anchor_col() == p.piece.anchor_col() && (
                q.piece.anchor_row() == if p.piece.anchor_row() > 0 {
                    (p.piece.anchor_row() - 1) as nat
                } else {
                    0
                }),
                Direction::Down => q.piece.anchor_col() == p.piece.anchor_col() && (
                q.piece.anchor_row() == if p.piece.anchor_row() < crate::board_utils::GRID_ROWS {
                    p.piece.anchor_row() + 1
                } else {
                    p.piece.anchor_row()
                }),
                Direction::Left => q.piece.anchor_row() == p.piece.anchor_row() && (
                q.piece.anchor_col() == if p.piece.anchor_col() > 0 {
                    (p.piece.anchor_col() - 1) as nat
                } else {
                    0
                }),
                Direction::Right => q.piece.anchor_row() == p.piece.anchor_row() && (
                q.piece.anchor_col() == if p.piece.anchor_col() < crate::board_utils::GRID_COLS {
                    p.piece.anchor_col() + 1
                } else {
                    p.piece.anchor_col()
                }),
            }),
    {
        match self.active.take() {
            None => false,
            Some(p) => {
                let mut p = p;
                match dir {
                    Direction::Up => {
                        p.piece.shift_up();
                        p.y = shift_px(p.y, MOVE_PX);
                    },
                    Direction::Down => {
                        p.piece.shift_down();
                        p.y = shift_px(p.y, -MOVE_PX);
                    },
                    Direction::Left => {
                        p.piece.shift_left();
                        p.x = shift_px(p.x, -MOVE_PX);
                    },
                    Direction::Right => {
                        p.piece.shift_right();
                        p.x = shift_px(p.x, MOVE_PX);
                    },
                }
                self.active = Some(p);
                true
            },
        }
    }
}

} // verus!
