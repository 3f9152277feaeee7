use vstd::prelude::*;

verus! {

/// The color of a piece; Black moves first.
#[derive(Clone, Copy, Debug, PartialEq, Eq, Hash, Structural)]
pub enum PieceColor {
    /// 白棋
    White,
    /// 黑棋
    Black,
}

impl PieceColor {
    /// The color that moves after this one.
    pub open spec fn spec_other(self) -> PieceColor {
        match self {
            PieceColor::White => PieceColor::Black,
            PieceColor::Black => PieceColor::White,
        }
    }

    /// Toggles Black↔White.
    pub fn other(self) -> (r: PieceColor)
        ensures
            r == self.spec_other(),
    {
        match self {
            PieceColor::White => PieceColor::Black,
            PieceColor::Black => PieceColor::White,
        }
    }

    /// The color's localized display name.
    pub open spec fn spec_name(self) -> Seq<char> {
        match self {
            PieceColor::White => "白棋"@,
            PieceColor::Black => "黑棋"@,
        }
    }

    /// The color's localized display name.
    pub fn name(self) -> (r: &'static str)
        ensures
            r@ == self.spec_name(),
    {
        match self {
            PieceColor::White => "白棋",
            PieceColor::Black => "黑棋",
        }
    }

    /// The announcement shown when this color wins.
    pub open spec fn spec_win_message(self) -> Seq<char> {
        match self {
            PieceColor::White => "白棋胜！"@,
            PieceColor::Black => "黑棋胜！"@,
        }
    }

    /// The announcement shown when this color wins.
    pub fn win_message(self) -> (r: &'static str)
        ensures
            r@ == self.spec_win_message(),
    {
        match self {
            PieceColor::White => "白棋胜！",
            PieceColor::Black => "黑棋胜！",
        }
    }
}

/// Black moves first.
impl Default for PieceColor {
    fn default() -> (r: Self)
        ensures
            r == PieceColor::Black,
    {
        PieceColor::Black
    }
}

/// Tracks whose turn it is; toggled exactly once per accepted placement.
#[derive(Clone, Copy, Debug, PartialEq, Eq, Structural)]
pub struct Round(PieceColor);

impl Round {
    /// The color that moves next.
    pub closed spec fn spec_current(self) -> PieceColor {
        self.0
    }

    /// The color that moves next.
    pub fn current(&self) -> (r: PieceColor)
        ensures
            r == self.spec_current(),
    {
        self.0
    }

    /// Hands the turn to the other color; called once per accepted placement.
    pub fn advance(&mut self)
        ensures
            final(self).spec_current() == old(self).spec_current().spec_other(),
    {
        self.0 = self.0.other();
    }
}

/// Black moves first.
impl Default for Round {
    fn default() -> (r: Self)
        ensures
            r.spec_current() == PieceColor::Black,
    {
        Round(PieceColor::Black)
    }
}

} // verus!
