use vstd::prelude::*;

use crate::board::{Board, PlaceError};
use crate::click::{click_in_range, validate, NextPiecePosition};
use crate::color::{PieceColor, Round};
use crate::win::{check_win, spec_win};

verus! {

/// Whether play goes on or a win has ended the game.
#[derive(Clone, Copy, Debug, PartialEq, Eq, Hash, Structural)]
pub enum GameState {
    InGame,
    GameOver,
}

/// A game starts in play.
impl Default for GameState {
    fn default() -> (r: Self)
        ensures
            r == GameState::InGame,
    {
        GameState::InGame
    }
}

/// What one tick did, for the caller to render.
#[derive(Clone, Copy, Debug, PartialEq, Eq, Structural)]
pub enum TickOutcome {
    /// No click was pending; nothing happened.
    Idle,
    /// A click was consumed and silently discarded.
    Rejected(PlaceError),
    /// A piece was placed on cell (x, y); `win` reports whether it ended the
    /// game.
    Placed { x: usize, y: usize, color: PieceColor, win: bool },
    /// A click arrived while the game was over: everything was reset.
    Restarted,
}

/// The whole rules engine: board, turn, and game state, advanced one
/// simulation tick at a time.
pub struct Game {
    board: Board,
    round: Round,
    state: GameState,
}

/// How consuming the pending click `click` carries the game from `pre` to
/// `post` with outcome `r`.
pub open spec fn spec_click_step(pre: Game, click: (i64, i64), post: Game, r: TickOutcome) -> bool {
    if pre.spec_state() == GameState::GameOver {
        // Any click after a win restarts from the defaults.
        &&& r == TickOutcome::Restarted
        &&& post.spec_board().is_empty_board()
        &&& post.spec_turn() == PieceColor::Black
        &&& post.spec_state() == GameState::InGame
    } else {
        let sx = click.0 as int;
        let sy = click.1 as int;
        if !click_in_range(sx, sy) {
            &&& r == TickOutcome::Rejected(PlaceError::OutOfRange)
            &&& post == pre
        } else {
            let x = sx + 7;
            let y = sy + 7;
            if pre.spec_board().spec_get(x, y) is Some {
                &&& r == TickOutcome::Rejected(PlaceError::Occupied)
                &&& post == pre
            } else {
                let c = pre.spec_turn();
                let win = spec_win(post.spec_board(), x, y, c);
                &&& post.spec_board().spec_get(x, y) == Some(c)
                &&& (forall|i: int, j: int|
                    Board::in_range(i, j) && !(i == x && j == y)
                        ==> #[trigger] post.spec_board().spec_get(i, j)
                            == pre.spec_board().spec_get(i, j))
                &&& post.spec_turn() == c.spec_other()
                &&& post.spec_state() == (if win {
                    GameState::GameOver
                } else {
                    GameState::InGame
                })
                &&& r == (TickOutcome::Placed { x: x as usize, y: y as usize, color: c, win })
            }
        }
    }
}

impl Game {
    /// The board as it currently stands.
    pub closed spec fn spec_board(self) -> Board {
        self.board
    }

    /// The color that moves next.
    pub closed spec fn spec_turn(self) -> PieceColor {
        self.round.spec_current()
    }

    /// Whether play goes on.
    pub closed spec fn spec_state(self) -> GameState {
        self.state
    }

    /// The game's internal invariant.
    pub open spec fn wf(self) -> bool {
        self.spec_board().wf()
    }

    /// A fresh game: empty board, Black to move, play on.
    pub fn new() -> (g: Game)
        ensures
            g.wf(),
            g.spec_board().is_empty_board(),
            g.spec_turn() == PieceColor::Black,
            g.spec_state() == GameState::InGame,
    {
        Game { board: Board::new(), round: Round::default(), state: GameState::InGame }
    }

    /// The board, for inspection.
    pub fn board(&self) -> (b: &Board)
        ensures
            *b == self.spec_board(),
    {
        &self.board
    }

    /// The color that moves next.
    pub fn turn(&self) -> (c: PieceColor)
        ensures
            c == self.spec_turn(),
    {
        self.round.current()
    }

    /// Whether play goes on.
    pub fn state(&self) -> (s: GameState)
        ensures
            s == self.spec_state(),
    {
        self.state
    }

    /// Full reset to the defaults: board cleared, Black to move, play on.
    pub fn restart(&mut self)
        ensures
            final(self).wf(),
            final(self).spec_board().is_empty_board(),
            final(self).spec_turn() == PieceColor::Black,
            final(self).spec_state() == GameState::InGame,
    {
        self.board.reset();
        self.round = Round::default();
        self.state = GameState::InGame;
    }

    /// One simulation tick: consumes the pending click, if any, and acts on
    /// it. In play, an in-range click on an empty cell places the current
    /// color, hands the turn over, and ends the game when the placement wins;
    /// any other click is discarded. After a win, any click restarts. The
    /// pending click is cleared on every path.
    pub fn tick(&mut self, pending: &mut NextPiecePosition) -> (r: TickOutcome)
        requires
            old(self).wf(),
        ensures
            final(self).wf(),
            final(pending).spec_pending() is None,
            old(pending).spec_pending() is None ==> r == TickOutcome::Idle
                && *final(self) == *old(self),
            old(pending).spec_pending() matches Some(click)
                ==> spec_click_step(*old(self), click, *final(self), r),
    {
        let click = pending.take();
        match click {
            None => TickOutcome::Idle,
            Some((sx, sy)) => {
                match self.state {
                    GameState::GameOver => {
                        self.restart();
                        TickOutcome::Restarted
                    },
                    GameState::InGame => {
                        match validate(sx, sy) {
                            None => TickOutcome::Rejected(PlaceError::OutOfRange),
                            Some((x, y)) => {
                                let color = self.round.current();
                                match self.board.place(x, y, color) {
                                    Err(_) => TickOutcome::Rejected(PlaceError::Occupied),
                                    Ok(()) => {
                                        self.round.advance();
                                        let win = check_win(&self.board, x, y, color);
                                        if win {
                                            self.state = GameState::GameOver;
                                        }
                                        TickOutcome::Placed { x, y, color, win }
                                    },
                                }
                            },
                        }
                    },
                }
            },
        }
    }
}

/// A fresh game: empty board, Black to move, play on.
impl Default for Game {
    fn default() -> (r: Self)
        ensures
            r.wf(),
            r.spec_board().is_empty_board(),
            r.spec_turn() == PieceColor::Black,
            r.spec_state() == GameState::InGame,
    {
        Game::new()
    }
}

} // verus!
