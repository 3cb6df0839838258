//! The decisions of a game played at a console: who moves next, and what a
//! move typed by a person or chosen by the engine does to the board. Reading
//! and printing are left to the caller.

use vstd::prelude::*;
use crate::board::{cell_of, empty_board, marks, put, to_move};
use crate::game::{
    EndStatus, Game, GameStatus, move_cell, move_status_of, player_type_of, status_of,
};
use crate::mov::{Move, MoveStatus};
use crate::search::best_cells;
use crate::settings::{PlayerType, Settings};

verus! {

/// What the console does next.
#[derive(Debug, Clone, Copy, PartialEq, Eq, Structural)]
pub enum Step {
    /// Ask the person to move.
    HumanMove,
    /// Let the engine move.
    BotMove,
    /// Announce how the game ended.
    Over(EndStatus),
}

/// The next step on board `b` under settings `s`.
pub open spec fn step_of(b: Seq<u8>, s: Settings) -> Step {
    match status_of(b) {
        GameStatus::End(e) => Step::Over(e),
        GameStatus::Active => if player_type_of(s, to_move(b)) == PlayerType::Bot {
            Step::BotMove
        } else {
            Step::HumanMove
        },
    }
}

/// A game played at a console.
pub struct ConsoleGame {
    game: Game,
}

impl View for ConsoleGame {
    type V = Seq<u8>;

    /// The board.
    closed spec fn view(&self) -> Seq<u8> {
        self.game@
    }
}

impl ConsoleGame {
    /// The settings the game was made with.
    pub closed spec fn config(&self) -> Settings {
        self.game.config()
    }

    /// A console game with an empty board under `settings`.
    pub fn new(settings: Settings) -> (r: ConsoleGame)
        ensures
            r@ == empty_board(),
            r.config() == settings,
    {
        ConsoleGame { game: Game::new(settings) }
    }

    /// The game being played.
    pub fn game(&self) -> (r: &Game)
        ensures
            r@ == self@,
            r.config() == self.config(),
    {
        &self.game
    }

    /// Starts over on an empty board.
    pub fn start(&mut self)
        ensures
            final(self)@ == empty_board(),
            final(self).config() == old(self).config(),
    {
        self.game.clear_field();
    }

    /// What to do next: announce the end of a finished game, or ask the
    /// player to move whose turn it is.
    pub fn next_step(&self) -> (r: Step)
        ensures
            r == step_of(self@, self.config()),
    {
        match self.game.status() {
            GameStatus::End(e) => Step::Over(e),
            GameStatus::Active => match self.game.cur_type_of_player() {
                PlayerType::Bot => Step::BotMove,
                PlayerType::Man => Step::HumanMove,
            },
        }
    }

    /// Plays the move to column `x`, row `y` that a person typed, if it is
    /// allowed; otherwise leaves the board as it was and says why not.
    pub fn human_move(&mut self, x: usize, y: usize) -> (r: MoveStatus)
        ensures
            r == move_status_of(old(self)@, x as int, y as int),
            final(self).config() == old(self).config(),
            final(self)@ == if r == MoveStatus::Correct {
                put(old(self)@, cell_of(x as int, y as int), to_move(old(self)@))
            } else {
                old(self)@
            },
    {
        let r = self.game.check_move(x, y);
        if r == MoveStatus::Correct {
            let m = Move::new(x, y);
            self.game.place(&m);
        }
        r
    }

    /// Plays the engine's move for the current player and returns it.
    pub fn bot_move(&mut self) -> (r: Move)
        requires
            marks(old(self)@) < 9,
        ensures
            best_cells(old(self)@, old(self).config().bot_lvl as nat).contains(move_cell(r)),
            final(self)@ == put(old(self)@, move_cell(r), to_move(old(self)@)),
            final(self).config() == old(self).config(),
    {
        let m = self.game.get_best_move();
        self.game.place(&m);
        m
    }
}

} // verus!
