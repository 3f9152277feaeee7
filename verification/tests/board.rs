use gomoku::board::{Board, PlaceError};
use gomoku::color::PieceColor;

#[test]
fn new_board_is_empty() {
    let b = Board::new();
    for x in 0..15usize {
        for y in 0..15usize {
            assert_eq!(b.get(x, y), Ok(None));
        }
    }
}

#[test]
fn place_succeeds_iff_empty() {
    let mut b = Board::new();
    assert_eq!(b.place(3, 4, PieceColor::Black), Ok(()));
    assert_eq!(b.get(3, 4), Ok(Some(PieceColor::Black)));
    // The occupied cell refuses a second piece of either color.
    assert_eq!(b.place(3, 4, PieceColor::White), Err(PlaceError::Occupied));
    assert_eq!(b.place(3, 4, PieceColor::Black), Err(PlaceError::Occupied));
    assert_eq!(b.get(3, 4), Ok(Some(PieceColor::Black)));
    // Other cells are untouched.
    assert_eq!(b.get(4, 3), Ok(None));
    assert_eq!(b.place(4, 3, PieceColor::White), Ok(()));
    assert_eq!(b.get(4, 3), Ok(Some(PieceColor::White)));
    assert_eq!(b.get(3, 4), Ok(Some(PieceColor::Black)));
}

#[test]
fn get_out_of_range() {
    let b = Board::new();
    assert_eq!(b.get(15, 0), Err(PlaceError::OutOfRange));
    assert_eq!(b.get(0, 15), Err(PlaceError::OutOfRange));
    assert_eq!(b.get(15, 15), Err(PlaceError::OutOfRange));
    assert_eq!(b.get(14, 14), Ok(None));
}

#[test]
fn place_out_of_range() {
    let mut b = Board::new();
    assert_eq!(b.place(15, 0, PieceColor::Black), Err(PlaceError::OutOfRange));
    assert_eq!(b.place(0, 15, PieceColor::Black), Err(PlaceError::OutOfRange));
    for x in 0..15usize {
        for y in 0..15usize {
            assert_eq!(b.get(x, y), Ok(None));
        }
    }
}

#[test]
fn reset_clears_all() {
    let mut b = Board::new();
    assert_eq!(b.place(0, 0, PieceColor::Black), Ok(()));
    assert_eq!(b.place(14, 14, PieceColor::White), Ok(()));
    assert_eq!(b.place(7, 7, PieceColor::Black), Ok(()));
    b.reset();
    for x in 0..15usize {
        for y in 0..15usize {
            assert_eq!(b.get(x, y), Ok(None));
        }
    }
    // A cleared cell takes a piece again.
    assert_eq!(b.place(7, 7, PieceColor::White), Ok(()));
}

#[test]
fn piece_position_world_points() {
    assert_eq!(Board::piece_position((7, 7)), (0, 0));
    assert_eq!(Board::piece_position((0, 0)), (-210, 210));
    assert_eq!(Board::piece_position((14, 14)), (210, -210));
    assert_eq!(Board::piece_position((10, 5)), (90, 60));
    assert_eq!(Board::piece_position((8, 7)), (30, 0));
    assert_eq!(Board::piece_position((7, 8)), (0, -30));
}
