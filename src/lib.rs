//! A 3x3 two-player game engine with an exhaustive look-ahead player.
//!
//! The board is the single source of truth: whose turn it is and how the game
//! stands are derived from the marks on it, never stored.

pub mod board;
pub mod console;
pub mod game;
pub mod laws;
pub mod mov;
pub mod search;
pub mod settings;

pub use console::{ConsoleGame, Step};
pub use game::{EndStatus, Game, GameStatus};
pub use mov::{Move, MoveError, MoveStatus};
pub use settings::{Mode, PlayerType, Settings};
