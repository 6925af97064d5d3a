use tetromino_board::board_utils::arr2str;
use tetromino_board::pieces::{gen_pieces, PieceMap, PieceType};
use tetromino_board::session::{Direction, Session, Transition, ENTRY_X, ENTRY_Y};

#[test]
fn advance_spawns_the_next_piece_at_the_entry() {
    let mut s = Session::new(gen_pieces());
    assert!(s.active_piece().is_none());
    let t = s.handle_next_piece();
    assert_eq!(t, Transition { removed: false, spawned: true });
    let p = s.active_piece().unwrap();
    assert_eq!((p.x, p.y), (ENTRY_X, ENTRY_Y));
    assert!(p.piece.is_active());
    assert_eq!(arr2str(p.piece.cells()), "11\n11");
    assert_eq!(s.catalog().current_type(), Some(PieceType::SqPiece));
    assert!(!s.catalog().current_piece().unwrap().is_active());
}

#[test]
fn advance_replaces_the_active_piece() {
    let mut s = Session::new(gen_pieces());
    s.handle_next_piece();
    let t = s.handle_next_piece();
    assert_eq!(t, Transition { removed: true, spawned: true });
    assert_eq!(arr2str(s.active_piece().unwrap().piece.cells()), "1111");
}

#[test]
fn moves_shift_anchor_and_display_position() {
    let mut s = Session::new(gen_pieces());
    assert!(!s.handle_keyboard_input(Direction::Right));
    s.handle_next_piece();
    assert!(s.handle_keyboard_input(Direction::Right));
    assert!(s.handle_keyboard_input(Direction::Down));
    assert!(s.handle_keyboard_input(Direction::Down));
    let p = s.active_piece().unwrap();
    assert_eq!((p.x, p.y), (-350, -200));
    assert_eq!(p.piece.anchor(), (2, 1));
    assert!(s.handle_keyboard_input(Direction::Up));
    assert!(s.handle_keyboard_input(Direction::Left));
    assert!(s.handle_keyboard_input(Direction::Left));
    let p = s.active_piece().unwrap();
    assert_eq!((p.x, p.y), (-550, -100));
    assert_eq!(p.piece.anchor(), (1, 0));
}

#[test]
fn rotation_respawns_where_the_piece_stood() {
    let mut s = Session::new(gen_pieces());
    s.handle_next_piece();
    s.handle_next_piece();
    s.handle_keyboard_input(Direction::Up);
    let t = s.handle_rotation();
    assert_eq!(t, Transition { removed: true, spawned: true });
    let p = s.active_piece().unwrap();
    assert_eq!((p.x, p.y), (ENTRY_X, ENTRY_Y + 100));
    assert_eq!(arr2str(p.piece.cells()), "1\n1\n1\n1");
    assert!(p.piece.is_active());
    assert_eq!(arr2str(s.catalog().current_piece().unwrap().cells()), "1\n1\n1\n1");
}

#[test]
fn rotation_without_an_active_piece_uses_the_entry() {
    let mut s = Session::new(gen_pieces());
    let t = s.handle_rotation();
    assert_eq!(t, Transition { removed: false, spawned: true });
    let p = s.active_piece().unwrap();
    assert_eq!((p.x, p.y), (ENTRY_X, ENTRY_Y));
    assert_eq!(arr2str(p.piece.cells()), "001\n111");
}

#[test]
fn empty_catalog_spawns_nothing() {
    let mut s = Session::new(PieceMap::default());
    assert_eq!(s.handle_next_piece(), Transition { removed: false, spawned: false });
    assert_eq!(s.handle_rotation(), Transition { removed: false, spawned: false });
    assert!(s.active_piece().is_none());
    assert!(!s.handle_keyboard_input(Direction::Left));
}
