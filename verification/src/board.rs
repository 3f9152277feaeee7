use vstd::prelude::*;

use crate::color::PieceColor;

verus! {

/// Why a lookup or placement is refused.
#[derive(Clone, Copy, Debug, PartialEq, Eq, Structural)]
pub enum PlaceError {
    /// The coordinate lies outside the 15×15 grid.
    OutOfRange,
    /// The targeted cell already holds a piece.
    Occupied,
}

/// The 15×15 grid; each cell is empty or holds one piece.
#[derive(Clone, Debug)]
pub struct Board {
    /// Cell (x, y) lives at index x * 15 + y.
    slots: Vec<Option<PieceColor>>,
}

impl Board {
    /// Whether (x, y) addresses a cell of the 15×15 grid.
    pub open spec fn in_range(x: int, y: int) -> bool {
        0 <= x < 15 && 0 <= y < 15
    }

    /// The representation holds exactly one slot per cell.
    pub closed spec fn wf(self) -> bool {
        self.slots@.len() == 225
    }

    /// The occupant of cell (x, y).
    pub closed spec fn spec_get(self, x: int, y: int) -> Option<PieceColor>
        recommends
            self.wf(),
            Self::in_range(x, y),
    {
        self.slots@[x * 15 + y]
    }

    /// Every cell of the grid is empty.
    pub open spec fn is_empty_board(self) -> bool {
        forall|x: int, y: int|
            Self::in_range(x, y) ==> #[trigger] self.spec_get(x, y) is None
    }

    /// A fresh, fully empty board.
    pub fn new() -> (b: Board)
        ensures
            b.wf(),
            b.is_empty_board(),
    {
        let b = Board { slots: empty_slots() };
        proof {
            assert forall|x: int, y: int|
                Self::in_range(x, y) implies #[trigger] b.spec_get(x, y) is None by {
                assert(0 <= x * 15 + y < 225);
            }
        }
        b
    }

    /// Looks up cell (x, y); coordinates outside the grid are refused.
    pub fn get(&self, x: usize, y: usize) -> (r: Result<Option<PieceColor>, PlaceError>)
        requires
            self.wf(),
        ensures
            x < 15 && y < 15 ==> r == Ok::<Option<PieceColor>, PlaceError>(
                self.spec_get(x as int, y as int),
            ),
            !(x < 15 && y < 15) ==> r == Err::<Option<PieceColor>, PlaceError>(
                PlaceError::OutOfRange,
            ),
    {
        if x < 15 && y < 15 {
            Ok(self.slots[x * 15 + y])
        } else {
            Err(PlaceError::OutOfRange)
        }
    }

    /// Puts a piece of `color` on cell (x, y). Succeeds exactly when the cell
    /// is in range and empty; on failure the board is unchanged. A non-empty
    /// cell is never overwritten, so a placed piece stays until a reset.
    pub fn place(&mut self, x: usize, y: usize, color: PieceColor) -> (r: Result<(), PlaceError>)
        requires
            old(self).wf(),
        ensures
            final(self).wf(),
            r is Ok <==> Self::in_range(x as int, y as int)
                && old(self).spec_get(x as int, y as int) is None,
            !Self::in_range(x as int, y as int) ==> r == Err::<(), PlaceError>(
                PlaceError::OutOfRange,
            ),
            Self::in_range(x as int, y as int) && old(self).spec_get(x as int, y as int) is Some
                ==> r == Err::<(), PlaceError>(PlaceError::Occupied),
            r is Err ==> *final(self) == *old(self),
            r is Ok ==> final(self).spec_get(x as int, y as int) == Some(color),
            r is Ok ==> forall|i: int, j: int|
                Self::in_range(i, j) && !(i == x as int && j == y as int)
                    ==> #[trigger] final(self).spec_get(i, j) == old(self).spec_get(i, j),
    {
        if !(x < 15 && y < 15) {
            return Err(PlaceError::OutOfRange);
        }
        let idx: usize = x * 15 + y;
        if self.slots[idx].is_some() {
            return Err(PlaceError::Occupied);
        }
        self.slots.set(idx, Some(color));
        proof {
            assert forall|i: int, j: int|
                Self::in_range(i, j) && !(i == x as int && j == y as int)
                    implies #[trigger] self.spec_get(i, j) == old(self).spec_get(i, j) by {
                assert(i * 15 + j != x as int * 15 + y as int);
            }
        }
        Ok(())
    }

    /// Empties every cell.
    pub fn reset(&mut self)
        ensures
            final(self).wf(),
            final(self).is_empty_board(),
    {
        self.slots = empty_slots();
        proof {
            assert forall|x: int, y: int|
                Self::in_range(x, y) implies #[trigger] self.spec_get(x, y) is None by {
                assert(0 <= x * 15 + y < 225);
            }
        }
    }

    /// The world-space point of a cell's center: 30 units per cell, origin at
    /// the middle cell (7, 7), with the world y axis pointing up the grid.
    pub open spec fn spec_grid_to_world(x: int, y: int) -> (int, int) {
        ((x - 7) * 30, (7 - y) * 30)
    }

    /// Where on the plane the piece of cell `piece_position` stands.
    pub fn piece_position(piece_position: (usize, usize)) -> (r: (i64, i64))
        requires
            piece_position.0 < 15,
            piece_position.1 < 15,
        ensures
            (r.0 as int, r.1 as int) == Self::spec_grid_to_world(
                piece_position.0 as int,
                piece_position.1 as int,
            ),
    {
        let dx: i64 = piece_position.0 as i64 - 7;
        let dy: i64 = 7 - piece_position.1 as i64;
        (dx * 30, dy * 30)
    }
}

/// An empty board starts empty.
impl Default for Board {
    fn default() -> (r: Self)
        ensures
            r.wf(),
            r.is_empty_board(),
    {
        Board::new()
    }
}

/// One empty slot for each of the 225 cells.
fn empty_slots() -> (v: Vec<Option<PieceColor>>)
    ensures
        v@.len() == 225,
        forall|k: int| 0 <= k < 225 ==> v@[k] is None,
{
    let mut v: Vec<Option<PieceColor>> = Vec::new();
    let mut k: usize = 0;
    while k < 225
        invariant
            k <= 225,
            v@.len() == k as int,
            forall|j: int| 0 <= j < k ==> v@[j] is None,
        decreases 225 - k,
    {
        v.push(None);
        k = k + 1;
    }
    v
}

} // verus!
