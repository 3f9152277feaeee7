use vstd::prelude::*;

use crate::board::Board;
use crate::color::PieceColor;

verus! {

/// The eight unit directions the scan tries, in order: the four axes, each
/// taken both ways.
pub open spec fn spec_direction(i: int) -> (int, int) {
    if i == 0 {
        (1, 0)
    } else if i == 1 {
        (0, 1)
    } else if i == 2 {
        (-1, 0)
    } else if i == 3 {
        (0, -1)
    } else if i == 4 {
        (1, 1)
    } else if i == 5 {
        (1, -1)
    } else if i == 6 {
        (-1, 1)
    } else {
        (-1, -1)
    }
}

/// Starting at (x, y) and walking `steps` cells along (dx, dy), every cell
/// visited is in range and holds `c`; the starting cell itself is not read.
pub open spec fn ray_filled(
    b: Board,
    x: int,
    y: int,
    c: PieceColor,
    dx: int,
    dy: int,
    steps: nat,
) -> bool
    decreases steps,
{
    steps == 0 || {
        &&& Board::in_range(x + dx, y + dy)
        &&& b.spec_get(x + dx, y + dy) == Some(c)
        &&& ray_filled(b, x + dx, y + dy, c, dx, dy, (steps - 1) as nat)
    }
}

/// A piece of `c` just placed at (x, y) wins when, in at least one of the
/// eight directions, the next four cells all hold `c`. This is deliberately
/// direction-local: each direction is judged by its own arm of four alone.
pub open spec fn spec_win(b: Board, x: int, y: int, c: PieceColor) -> bool {
    exists|i: int|
        0 <= i < 8 && ray_filled(
            b,
            x,
            y,
            c,
            #[trigger] spec_direction(i).0,
            spec_direction(i).1,
            4,
        )
}

/// Direction number `i` as executable steps.
fn direction(i: usize) -> (d: (i64, i64))
    requires
        i < 8,
    ensures
        (d.0 as int, d.1 as int) == spec_direction(i as int),
{
    if i == 0 {
        (1, 0)
    } else if i == 1 {
        (0, 1)
    } else if i == 2 {
        (-1, 0)
    } else if i == 3 {
        (0, -1)
    } else if i == 4 {
        (1, 1)
    } else if i == 5 {
        (1, -1)
    } else if i == 6 {
        (-1, 1)
    } else {
        (-1, -1)
    }
}

/// Walks up to `steps` cells from (x, y) along (dx, dy) and reports whether
/// every visited cell is on the grid and holds `c`.
fn ray_holds(b: &Board, x: i64, y: i64, c: PieceColor, dx: i64, dy: i64, steps: u8) -> (r: bool)
    requires
        b.wf(),
        -100 <= x <= 100,
        -100 <= y <= 100,
        -1 <= dx <= 1,
        -1 <= dy <= 1,
        steps <= 4,
    ensures
        r == ray_filled(*b, x as int, y as int, c, dx as int, dy as int, steps as nat),
    decreases steps,
{
    if steps == 0 {
        return true;
    }
    let nx: i64 = x + dx;
    let ny: i64 = y + dy;
    if nx < 0 || nx >= 15 || ny < 0 || ny >= 15 {
        return false;
    }
    match b.get(nx as usize, ny as usize) {
        Ok(Some(cc)) => {
            if cc == c {
                ray_holds(b, nx, ny, c, dx, dy, steps - 1)
            } else {
                false
            }
        },
        _ => false,
    }
}

/// Scans the eight directions from the just-placed piece of `c` at (x, y) for
/// an arm of four more `c` pieces, declaring a win the instant one succeeds.
pub fn check_win(b: &Board, x: usize, y: usize, c: PieceColor) -> (r: bool)
    requires
        b.wf(),
        x < 15,
        y < 15,
    ensures
        r == spec_win(*b, x as int, y as int, c),
{
    let mut i: usize = 0;
    while i < 8
        invariant
            b.wf(),
            x < 15,
            y < 15,
            i <= 8,
            forall|j: int|
                0 <= j < i ==> !ray_filled(
                    *b,
                    x as int,
                    y as int,
                    c,
                    #[trigger] spec_direction(j).0,
                    spec_direction(j).1,
                    4,
                ),
        decreases 8 - i,
    {
        let d = direction(i);
        if ray_holds(b, x as i64, y as i64, c, d.0, d.1, 4) {
            proof {
                assert(ray_filled(
                    *b,
                    x as int,
                    y as int,
                    c,
                    spec_direction(i as int).0,
                    spec_direction(i as int).1,
                    4,
                ));
            }
            return true;
        }
        i = i + 1;
    }
    false
}

} // verus!
