use gomoku::color::{PieceColor, Round};

#[test]
fn black_moves_first() {
    assert_eq!(PieceColor::default(), PieceColor::Black);
    assert_eq!(Round::default().current(), PieceColor::Black);
}

#[test]
fn other_toggles_colors() {
    assert_eq!(PieceColor::Black.other(), PieceColor::White);
    assert_eq!(PieceColor::White.other(), PieceColor::Black);
    assert_eq!(PieceColor::Black.other().other(), PieceColor::Black);
}

#[test]
fn advance_hands_the_turn_over() {
    let mut round = Round::default();
    assert_eq!(round.current(), PieceColor::Black);
    round.advance();
    assert_eq!(round.current(), PieceColor::White);
    round.advance();
    assert_eq!(round.current(), PieceColor::Black);
}

#[test]
fn localized_names() {
    assert_eq!(PieceColor::White.name(), "白棋");
    assert_eq!(PieceColor::Black.name(), "黑棋");
}

#[test]
fn win_messages() {
    assert_eq!(PieceColor::White.win_message(), "白棋胜！");
    assert_eq!(PieceColor::Black.win_message(), "黑棋胜！");
}
