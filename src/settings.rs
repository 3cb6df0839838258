//! How a game is played: by one person against the engine, or by two people.

use vstd::prelude::*;

verus! {

/// Who plays.
#[derive(Debug, Clone, Copy, PartialEq, Eq, Structural)]
pub enum Mode {
    /// One person against the engine.
    OnePlayer,
    /// Two people against each other.
    TwoPlayers,
}

/// Who chooses the next move.
#[derive(Debug, Clone, Copy, PartialEq, Eq, Structural)]
pub enum PlayerType {
    /// The engine, by searching.
    Bot,
    /// A person.
    Man,
}

/// The configuration of a game, fixed when the game is made.
///
/// `bot_player` (1 or 2) and `bot_lvl` (the search depth) matter only in
/// [`Mode::OnePlayer`].
#[derive(Debug, Clone, Copy, PartialEq, Eq, Structural)]
pub struct Settings {
    pub mode: Mode,
    pub bot_player: u8,
    pub bot_lvl: u8,
}

impl Settings {
    /// A game against the engine, where the person moves as player
    /// `player_order` and the engine searches `bot_lvl` moves ahead.
    pub fn bot_game(player_order: u8, bot_lvl: u8) -> (r: Settings)
        requires
            1 <= player_order <= 2,
            bot_lvl < 9,
        ensures
            r.mode == Mode::OnePlayer,
            r.bot_player == player_order % 2 + 1,
            r.bot_lvl == bot_lvl,
    {
        Settings { mode: Mode::OnePlayer, bot_player: player_order % 2 + 1, bot_lvl }
    }

    /// A game between two people.
    pub fn two_player_game() -> (r: Settings)
        ensures
            r.mode == Mode::TwoPlayers,
            r.bot_player == 2,
            r.bot_lvl == 0,
    {
        Settings { mode: Mode::TwoPlayers, ..Self::default() }
    }

    /// A game against the engine, which moves second without looking ahead.
    pub fn default() -> (r: Settings)
        ensures
            r.mode == Mode::OnePlayer,
            r.bot_player == 2,
            r.bot_lvl == 0,
    {
        Settings { mode: Mode::OnePlayer, bot_player: 2, bot_lvl: 0 }
    }
}

} // verus!
