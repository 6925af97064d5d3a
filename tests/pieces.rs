use tetromino_board::board_utils::{arr2str, BoardError};
use tetromino_board::grid::CellGrid;
use tetromino_board::pieces::{gen_pieces, BasePiece, PieceMap, PieceType};

fn piece(rows: usize, cols: usize, cells: Vec<bool>) -> BasePiece {
    BasePiece::new(CellGrid::from_shape_vec(rows, cols, cells).unwrap()).unwrap()
}

fn text(p: &BasePiece) -> String {
    arr2str(p.cells())
}

#[test]
fn a_new_piece_is_inactive_at_the_origin() {
    let p = piece(3, 2, vec![true, true, false, true, false, true]);
    assert_eq!(p.anchor(), (0, 0));
    assert!(!p.is_active());
    assert_eq!(text(&p), "11\n01\n01");
}

#[test]
fn an_empty_shape_is_rejected() {
    let no_rows = CellGrid::from_shape_vec(0, 3, vec![]).unwrap();
    assert!(matches!(BasePiece::new(no_rows), Err(BoardError::InvalidShape)));
    let no_cols = CellGrid::from_shape_vec(2, 0, vec![]).unwrap();
    assert!(matches!(BasePiece::new(no_cols), Err(BoardError::InvalidShape)));
}

#[test]
fn l_shape_rotates_clockwise() {
    let mut p = piece(3, 2, vec![true, true, false, true, false, true]);
    p.rotate();
    assert_eq!(p.cells().dim(), (2, 3));
    assert_eq!(text(&p), "001\n111");
    assert!(!p.cells().get(0, 0));
    assert!(!p.cells().get(0, 1));
    assert!(p.cells().get(0, 2));
    assert!(p.cells().get(1, 0));
    assert!(p.cells().get(1, 1));
    assert!(p.cells().get(1, 2));
}

#[test]
fn filled_square_is_fixed_by_rotation() {
    let mut p = piece(2, 2, vec![true, true, true, true]);
    p.rotate();
    assert_eq!(p.cells().dim(), (2, 2));
    assert_eq!(text(&p), "11\n11");
}

#[test]
fn four_rotations_restore_a_square_shape() {
    let mut p = piece(2, 2, vec![true, true, true, false]);
    p.rotate();
    assert_eq!(text(&p), "11\n01");
    p.rotate();
    assert_eq!(text(&p), "01\n11");
    p.rotate();
    assert_eq!(text(&p), "10\n11");
    p.rotate();
    assert_eq!(text(&p), "11\n10");
}

#[test]
fn rotation_swaps_dimensions_of_a_bar() {
    let mut p = piece(1, 4, vec![true, true, true, true]);
    p.rotate();
    assert_eq!(p.cells().dim(), (4, 1));
    assert_eq!(text(&p), "1\n1\n1\n1");
    p.rotate();
    assert_eq!(p.cells().dim(), (1, 4));
}

#[test]
fn rotation_keeps_anchor_and_flag() {
    let mut p = piece(3, 2, vec![true, false, true, true, true, false]);
    p.shift_down();
    p.shift_right();
    p.set_active(true);
    p.rotate();
    assert_eq!(p.anchor(), (1, 1));
    assert!(p.is_active());
    assert_eq!(text(&p), "111\n010");
}

#[test]
fn shifts_up_and_left_stop_at_the_origin() {
    let mut p = piece(1, 1, vec![true]);
    p.shift_left();
    assert_eq!(p.anchor(), (0, 0));
    p.shift_up();
    assert_eq!(p.anchor(), (0, 0));
}

#[test]
fn shifts_move_the_anchor_by_one() {
    let mut p = piece(1, 2, vec![true, true]);
    p.shift_down();
    p.shift_down();
    p.shift_right();
    assert_eq!(p.anchor(), (2, 1));
    p.shift_up();
    p.shift_left();
    assert_eq!(p.anchor(), (1, 0));
}

#[test]
fn shifts_down_and_right_stop_at_the_grid_size() {
    let mut p = piece(1, 1, vec![true]);
    for _ in 0..10 {
        p.shift_down();
        p.shift_right();
    }
    assert_eq!(p.anchor(), (6, 6));
}

#[test]
fn active_flag_round_trips() {
    let mut p = piece(1, 3, vec![true, true, true]);
    p.set_active(true);
    assert!(p.is_active());
    p.set_active(false);
    assert!(!p.is_active());
}

#[test]
fn duplicate_copies_everything() {
    let mut p = piece(3, 2, vec![true, false, true, true, false, true]);
    p.shift_down();
    p.set_active(true);
    let q = p.duplicate();
    assert_eq!(q.anchor(), (1, 0));
    assert!(q.is_active());
    assert_eq!(text(&q), "10\n11\n01");
}

#[test]
fn default_catalog_holds_nine_kinds_in_order() {
    let map = gen_pieces();
    let expected = [
        PieceType::LPiece,
        PieceType::SqPiece,
        PieceType::Str4Piece,
        PieceType::Str3Piece,
        PieceType::Str2Piece,
        PieceType::Str1Piece,
        PieceType::ZPiece,
        PieceType::TPiece,
        PieceType::CornerPiece,
    ];
    assert_eq!(map.len(), 9);
    for (i, k) in expected.iter().enumerate() {
        assert_eq!(map.key_at(i), *k);
    }
    assert_eq!(map.current_type(), Some(PieceType::LPiece));
    assert_eq!(text(map.current_piece().unwrap()), "11\n01\n01");
}

#[test]
fn next_piece_returns_the_second_entry() {
    let mut map = gen_pieces();
    let p = map.next_piece().unwrap();
    assert_eq!(text(p), "11\n11");
    assert_eq!(p.anchor(), (0, 0));
    assert!(!p.is_active());
    assert_eq!(map.current_type(), Some(PieceType::SqPiece));
    assert_eq!(text(map.current_piece().unwrap()), "11\n11");
}

#[test]
fn next_piece_cycles_through_every_entry() {
    let mut map = gen_pieces();
    let shapes = [
        "11\n11",
        "1111",
        "111",
        "11",
        "1",
        "10\n11\n01",
        "10\n11\n10",
        "11\n10",
        "11\n01\n01",
    ];
    let mut seen = Vec::new();
    for s in shapes.iter() {
        let p = map.next_piece().unwrap();
        assert_eq!(text(p), *s);
        seen.push(map.current_type().unwrap());
    }
    for i in 0..seen.len() {
        for j in i + 1..seen.len() {
            assert_ne!(seen[i], seen[j]);
        }
    }
    assert_eq!(map.current_type(), Some(PieceType::LPiece));
    assert_eq!(text(map.next_piece().unwrap()), "11\n11");
    assert_eq!(map.current_type(), Some(PieceType::SqPiece));
}

#[test]
fn rotate_current_changes_the_stored_template() {
    let mut map = gen_pieces();
    map.rotate_current();
    assert_eq!(text(map.current_piece().unwrap()), "001\n111");
    assert_eq!(map.current_type(), Some(PieceType::LPiece));
    for _ in 0..9 {
        map.next_piece();
    }
    assert_eq!(text(map.current_piece().unwrap()), "001\n111");
}

#[test]
fn rotate_current_leaves_other_templates() {
    let mut map = gen_pieces();
    map.rotate_current();
    assert_eq!(text(map.next_piece().unwrap()), "11\n11");
    assert_eq!(text(map.next_piece().unwrap()), "1111");
}

#[test]
fn empty_catalog_does_nothing() {
    let mut map = PieceMap::default();
    assert_eq!(map.len(), 0);
    assert!(map.next_piece().is_none());
    assert!(map.current_piece().is_none());
    map.rotate_current();
    assert_eq!(map.current_type(), None);
}

#[test]
fn catalog_from_entries_starts_at_the_first() {
    let entries = vec![
        (PieceType::TPiece, piece(1, 2, vec![true, true])),
        (PieceType::ZPiece, piece(1, 1, vec![true])),
    ];
    let mut map = PieceMap::new(entries);
    assert_eq!(map.current_type(), Some(PieceType::TPiece));
    assert_eq!(text(map.next_piece().unwrap()), "1");
    assert_eq!(text(map.next_piece().unwrap()), "11");
    assert_eq!(map.current_type(), Some(PieceType::TPiece));
}
