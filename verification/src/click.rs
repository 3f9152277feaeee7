use vstd::prelude::*;

verus! {

/// A click snapped to signed cell coordinates lands on the grid exactly when
/// both axes lie in [-7, 7].
pub open spec fn click_in_range(sx: int, sy: int) -> bool {
    -7 <= sx <= 7 && -7 <= sy <= 7
}

/// Maps a click, already translated to the window center, scaled by the
/// 30-unit cell size and rounded to the nearest cell, onto grid indices by
/// shifting the signed range [-7, 7] to [0, 14]; anything outside is refused.
pub fn validate(sx: i64, sy: i64) -> (r: Option<(usize, usize)>)
    ensures
        click_in_range(sx as int, sy as int) ==> r == Some((
            (sx as int + 7) as usize,
            (sy as int + 7) as usize,
        )),
        !click_in_range(sx as int, sy as int) ==> r is None,
{
    if sx < -7 || sx > 7 || sy < -7 || sy > 7 {
        None
    } else {
        Some(((sx + 7) as usize, (sy + 7) as usize))
    }
}

/// The pending click of the current tick, already snapped to signed cell
/// coordinates; written by input sampling and consumed at most once per tick.
#[derive(Clone, Copy, Debug)]
pub struct NextPiecePosition(Option<(i64, i64)>);

impl NextPiecePosition {
    /// The click waiting to be consumed, if any.
    pub closed spec fn spec_pending(self) -> Option<(i64, i64)> {
        self.0
    }

    /// Records a click at signed cell coordinates (sx, sy).
    pub fn set(&mut self, sx: i64, sy: i64)
        ensures
            final(self).spec_pending() == Some((sx, sy)),
    {
        self.0 = Some((sx, sy));
    }

    /// Consumes the pending click: whatever was stored comes out, and nothing
    /// is left behind.
    pub fn take(&mut self) -> (r: Option<(i64, i64)>)
        ensures
            r == old(self).spec_pending(),
            final(self).spec_pending() is None,
    {
        let r = self.0;
        self.0 = None;
        r
    }
}

/// No click is pending at the start.
impl Default for NextPiecePosition {
    fn default() -> (r: Self)
        ensures
            r.spec_pending() is None,
    {
        NextPiecePosition(None)
    }
}

} // verus!
