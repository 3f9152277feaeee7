use gomoku::board::Board;
use gomoku::click::{validate, NextPiecePosition};

#[test]
fn validate_maps_in_range_clicks() {
    assert_eq!(validate(0, 0), Some((7, 7)));
    assert_eq!(validate(-7, -7), Some((0, 0)));
    assert_eq!(validate(7, 7), Some((14, 14)));
    assert_eq!(validate(3, -2), Some((10, 5)));
}

#[test]
fn validate_rejects_out_of_range_clicks() {
    assert_eq!(validate(-8, 0), None);
    assert_eq!(validate(8, 0), None);
    assert_eq!(validate(0, -8), None);
    assert_eq!(validate(0, 8), None);
    assert_eq!(validate(-100, 100), None);
}

#[test]
fn validate_then_world_recovers_the_click_point() {
    // A click that snaps to signed cell coordinates (sx, sy) sits at world
    // point (30·sx, −30·sy); validating it and mapping the cell back to the
    // world lands on exactly that point.
    for sx in -7..=7i64 {
        for sy in -7..=7i64 {
            let (x, y) = validate(sx, sy).unwrap();
            assert_eq!(Board::piece_position((x, y)), (30 * sx, -30 * sy));
        }
    }
}

#[test]
fn pending_click_is_consumed_once() {
    let mut pending = NextPiecePosition::default();
    assert_eq!(pending.take(), None);
    pending.set(3, -2);
    assert_eq!(pending.take(), Some((3, -2)));
    assert_eq!(pending.take(), None);
    // A newer click overwrites an unconsumed one.
    pending.set(1, 1);
    pending.set(-4, 0);
    assert_eq!(pending.take(), Some((-4, 0)));
}
