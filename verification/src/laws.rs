use vstd::prelude::*;

use crate::board::Board;
use crate::click::click_in_range;
use crate::color::PieceColor;
use crate::game::{spec_click_step, Game, TickOutcome};
use crate::win::{ray_filled, spec_direction, spec_win};

verus! {

/// The color to move after `n` accepted placements, starting from the
/// default of Black and handing the turn over once per placement.
pub open spec fn color_after(n: nat) -> PieceColor
    decreases n,
{
    if n == 0 {
        PieceColor::Black
    } else {
        color_after((n - 1) as nat).spec_other()
    }
}

/// Turn alternation: after `n` accepted placements from the default, Black is
/// to move exactly when `n` is even — so the color used on the i-th placement
/// (1-indexed) is Black exactly when i is odd.
pub proof fn lemma_turn_alternation(n: nat)
    ensures
        color_after(n) == if n % 2 == 0 {
            PieceColor::Black
        } else {
            PieceColor::White
        },
    decreases n,
{
    if n > 0 {
        lemma_turn_alternation((n - 1) as nat);
    }
}

/// Every accepted placement keeps the alternation going: when the game has
/// seen `n` accepted placements so far (so `color_after(n)` is to move), a
/// tick that places a piece uses exactly that color, and afterwards
/// `color_after(n + 1)` is to move.
pub proof fn lemma_placement_alternates(
    pre: Game,
    click: (i64, i64),
    post: Game,
    r: TickOutcome,
    n: nat,
)
    requires
        spec_click_step(pre, click, post, r),
        r is Placed,
        pre.spec_turn() == color_after(n),
    ensures
        r->color == color_after(n),
        post.spec_turn() == color_after(n + 1),
{
}

/// Placing a piece on the cell an in-range click validates to puts it back at
/// the click's own world point: a click snapped to signed cell coordinates
/// (sx, sy) validates to grid cell (sx + 7, sy + 7), and the world point of
/// that cell is (30·sx, −30·sy) — the snapped click, re-scaled by the cell
/// size, with the world y axis pointing up the grid.
pub proof fn lemma_validate_inverts_world(sx: int, sy: int)
    requires
        click_in_range(sx, sy),
    ensures
        Board::in_range(sx + 7, sy + 7),
        Board::spec_grid_to_world(sx + 7, sy + 7) == (30 * sx, -30 * sy),
{
}

/// Win detection is direction-local: when the four cells stepping away from
/// the placed piece of `c` at (x, y) along direction `i` all hold `c`, the
/// placement wins, whatever the rest of the board — the opposite arm and any
/// fifth piece included — may hold.
pub proof fn lemma_win_direction_local(b: Board, x: int, y: int, c: PieceColor, i: int)
    requires
        0 <= i < 8,
        ({
            let dx = spec_direction(i).0;
            let dy = spec_direction(i).1;
            &&& Board::in_range(x + dx, y + dy) && b.spec_get(x + dx, y + dy) == Some(c)
            &&& Board::in_range(x + 2 * dx, y + 2 * dy) && b.spec_get(x + 2 * dx, y + 2 * dy)
                == Some(c)
            &&& Board::in_range(x + 3 * dx, y + 3 * dy) && b.spec_get(x + 3 * dx, y + 3 * dy)
                == Some(c)
            &&& Board::in_range(x + 4 * dx, y + 4 * dy) && b.spec_get(x + 4 * dx, y + 4 * dy)
                == Some(c)
        }),
    ensures
        spec_win(b, x, y, c),
{
    let dx = spec_direction(i).0;
    let dy = spec_direction(i).1;
    assert(ray_filled(b, x + 4 * dx, y + 4 * dy, c, dx, dy, 0));
    assert(ray_filled(b, x + 3 * dx, y + 3 * dy, c, dx, dy, 1));
    assert(ray_filled(b, x + 2 * dx, y + 2 * dy, c, dx, dy, 2));
    assert(ray_filled(b, x + dx, y + dy, c, dx, dy, 3));
    assert(ray_filled(b, x, y, c, dx, dy, 4));
}

} // verus!
