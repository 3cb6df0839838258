//! A game: the board, its settings, and what is derived from the board.

use vstd::prelude::*;
use crate::board::{
    EMPTY, cells, cell_of, column_line, down_diagonal_line, empty_board, has_line,
    lemma_marks_bound, marks, marks_in, moved_last, put, row_line, to_move,
    up_diagonal_line,
};
use crate::mov::{Move, MoveError, MoveStatus};
use crate::search::{
    best_cells, cells_where, free_cells, lemma_best_cells_free,
    lemma_best_cells_nonempty, lose_for, move_value, reply_value, score, win_for,
};
use crate::settings::{Mode, PlayerType, Settings};

verus! {

/// How a finished game ended.
#[derive(Debug, Clone, Copy, PartialEq, Eq, Structural)]
pub enum EndStatus {
    FirstWin,
    SecondWin,
    Draw,
}

/// How a game stands: still going, or over.
#[derive(Debug, Clone, Copy, PartialEq, Eq, Structural)]
pub enum GameStatus {
    Active,
    End(EndStatus),
}

/// Relies on rand's `thread_rng().gen_range(0..n)`: an index drawn from
/// `0..n`, which panics when `n` is 0.
#[verifier::external_body]
fn random_index(n: usize) -> (r: usize)
    requires
        n > 0,
    ensures
        r < n,
{
    rand::Rng::gen_range(&mut rand::thread_rng(), 0..n)
}

/// The cell index of a move.
pub open spec fn move_cell(m: Move) -> int {
    cell_of(m@.0, m@.1)
}

/// Selects the diagonal from the top left corner.
const FROM_UP_LEFT: u8 = 0;

/// Selects the diagonal from the top right corner.
const FROM_UP_RIGHT: u8 = 1;

/// How board `b` stands. A complete line is credited to the player who moved
/// last; with no line the game goes on while a cell is empty, and is a draw
/// once none is.
pub open spec fn status_of(b: Seq<u8>) -> GameStatus {
    if has_line(b) {
        if moved_last(b) == 1 {
            GameStatus::End(EndStatus::FirstWin)
        } else {
            GameStatus::End(EndStatus::SecondWin)
        }
    } else if marks(b) < 9 {
        GameStatus::Active
    } else {
        GameStatus::End(EndStatus::Draw)
    }
}

/// The result of checking a move to column `x`, row `y` on board `b`.
pub open spec fn move_status_of(b: Seq<u8>, x: int, y: int) -> MoveStatus {
    if x > 2 || y > 2 {
        MoveStatus::Error(MoveError::OutOfField)
    } else if b[cell_of(x, y)] != 0 {
        MoveStatus::Error(MoveError::AlreadyOccupied)
    } else {
        MoveStatus::Correct
    }
}

/// Who chooses the move of player `p` under settings `s`.
pub open spec fn player_type_of(s: Settings, p: u8) -> PlayerType {
    match s.mode {
        Mode::OnePlayer => if p == s.bot_player {
            PlayerType::Bot
        } else {
            PlayerType::Man
        },
        Mode::TwoPlayers => PlayerType::Man,
    }
}

/// A board and the settings it is played under.
pub struct Game {
    field: [[u8; 3]; 3],
    settings: Settings,
}

impl View for Game {
    type V = Seq<u8>;

    /// The nine cells, row by row.
    closed spec fn view(&self) -> Seq<u8> {
        cells(self.field)
    }
}

impl Game {
    /// The settings the game was made with.
    pub closed spec fn config(&self) -> Settings {
        self.settings
    }

    /// A game with an empty board under `settings`.
    pub fn new(settings: Settings) -> (r: Game)
        ensures
            r@ == empty_board(),
            r.config() == settings,
    {
        let r = Game { settings, ..Game::default() };
        assert(r@ =~= empty_board());
        r
    }

    /// A game with an empty board under the default settings.
    pub fn default() -> (r: Game)
        ensures
            r@ == empty_board(),
            r.config() == (Settings { mode: Mode::OnePlayer, bot_player: 2, bot_lvl: 0 }),
    {
        let r = Game { field: [[0, 0, 0], [0, 0, 0], [0, 0, 0]], settings: Settings::default() };
        assert(r@ =~= empty_board());
        r
    }

    /// The board, as rows.
    pub fn get_field(&self) -> (r: [[u8; 3]; 3])
        ensures
            cells(r) == self@,
    {
        self.field
    }

    /// The settings.
    pub fn get_settings(&self) -> (r: &Settings)
        ensures
            *r == self.config(),
    {
        &self.settings
    }

    /// The mark in column `x`, row `y`.
    fn at(&self, x: usize, y: usize) -> (r: u8)
        requires
            x < 3,
            y < 3,
        ensures
            r == self@[cell_of(x as int, y as int)],
    {
        self.field[y][x]
    }

    /// Empties every cell.
    pub fn clear_field(&mut self)
        ensures
            final(self)@ == empty_board(),
            final(self).config() == old(self).config(),
    {
        let mut i: usize = 0;
        while i < 3
            invariant
                0 <= i <= 3,
                self.settings == old(self).settings,
                forall|k: int| 0 <= k < 3 * i ==> #[trigger] self@[k] == 0,
            decreases 3 - i,
        {
            let mut j: usize = 0;
            while j < 3
                invariant
                    0 <= i < 3,
                    0 <= j <= 3,
                    self.settings == old(self).settings,
                    forall|k: int| 0 <= k < 3 * i + j ==> #[trigger] self@[k] == 0,
                decreases 3 - j,
            {
                self.write(j, i, EMPTY);
                j += 1;
            }
            i += 1;
        }
        assert(self@ =~= empty_board());
    }

    /// The number of moves made so far: the number of marked cells.
    pub fn cur_move(&self) -> (r: u8)
        ensures
            r == marks(self@),
    {
        let mut cnt: u8 = 0;
        let mut k: usize = 0;
        while k < 9
            invariant
                0 <= k <= 9,
                cnt == marks_in(self@, k as int),
                marks_in(self@, k as int) <= k,
            decreases 9 - k,
        {
            if self.at(k % 3, k / 3) != EMPTY {
                cnt += 1;
            }
            k += 1;
        }
        cnt
    }

    /// The player to move: 1 after an even number of moves, 2 after an odd one.
    pub fn cur_player(&self) -> (r: u8)
        ensures
            r == to_move(self@),
            r == 1 || r == 2,
    {
        (self.cur_move() % 2) + 1
    }

    /// The player who made the last move.
    pub fn prev_player(&self) -> (r: u8)
        ensures
            r == moved_last(self@),
            r == 1 || r == 2,
    {
        proof {
            lemma_marks_bound(self@);
        }
        (self.cur_move() + 1) % 2 + 1
    }

    /// Who chooses the next move: the engine in a game against it when its
    /// player is to move, a person otherwise.
    pub fn cur_type_of_player(&self) -> (r: PlayerType)
        ensures
            r == player_type_of(self.config(), to_move(self@)),
    {
        match self.settings.mode {
            Mode::OnePlayer => {
                if self.cur_player() == self.settings.bot_player {
                    PlayerType::Bot
                } else {
                    PlayerType::Man
                }
            },
            Mode::TwoPlayers => PlayerType::Man,
        }
    }

    /// Whether the current player may mark column `x`, row `y`.
    pub fn check_move(&self, x: usize, y: usize) -> (r: MoveStatus)
        ensures
            r == move_status_of(self@, x as int, y as int),
    {
        if x > 2 || y > 2 {
            MoveStatus::Error(MoveError::OutOfField)
        } else if self.at(x, y) != EMPTY {
            MoveStatus::Error(MoveError::AlreadyOccupied)
        } else {
            MoveStatus::Correct
        }
    }

    /// Writes `v` into column `x`, row `y`.
    fn write(&mut self, x: usize, y: usize, v: u8)
        requires
            x < 3,
            y < 3,
        ensures
            final(self)@ == put(old(self)@, cell_of(x as int, y as int), v),
            final(self).settings == old(self).settings,
    {
        self.field[y][x] = v;
        assert(self@ =~= put(old(self)@, cell_of(x as int, y as int), v));
    }

    /// Marks the cell of `mov` for the current player, who must have
    /// checked that it is empty.
    pub fn place(&mut self, mov: &Move)
        requires
            old(self)@[cell_of(mov@.0, mov@.1)] == 0,
        ensures
            final(self)@ == put(old(self)@, cell_of(mov@.0, mov@.1), to_move(old(self)@)),
            final(self).config() == old(self).config(),
    {
        let p = self.cur_player();
        self.write(mov.x(), mov.y(), p);
    }

    /// Empties the cell of `mov` again.
    fn remove(&mut self, mov: &Move)
        ensures
            final(self)@ == put(old(self)@, cell_of(mov@.0, mov@.1), 0),
            final(self).settings == old(self).settings,
    {
        self.write(mov.x(), mov.y(), EMPTY);
    }

    /// Whether some cell is empty.
    fn has_free_cell(&self) -> (r: bool)
        ensures
            r == (marks(self@) < 9),
    {
        self.cur_move() < 9
    }

    /// Whether row `row` holds three equal marks.
    fn is_win_row(&self, row: usize) -> (r: bool)
        requires
            row < 3,
        ensures
            r == row_line(self@, row as int),
    {
        self.at(0, row) == self.at(1, row) && self.at(1, row) == self.at(2, row) && self.at(0, row)
            != EMPTY
    }

    /// Whether column `column` holds three equal marks.
    fn is_win_column(&self, column: usize) -> (r: bool)
        requires
            column < 3,
        ensures
            r == column_line(self@, column as int),
    {
        self.at(column, 0) == self.at(column, 1) && self.at(column, 1) == self.at(column, 2)
            && self.at(column, 0) != EMPTY
    }

    /// Whether the diagonal that `diagonal` selects holds three equal marks.
    fn is_win_diagonal(&self, diagonal: u8) -> (r: bool)
        ensures
            r == if diagonal == FROM_UP_LEFT {
                down_diagonal_line(self@)
            } else {
                up_diagonal_line(self@)
            },
    {
        (if diagonal == FROM_UP_LEFT {
            self.at(0, 0) == self.at(1, 1) && self.at(1, 1) == self.at(2, 2)
        } else {
            self.at(2, 0) == self.at(1, 1) && self.at(1, 1) == self.at(0, 2)
        }) && self.at(1, 1) != EMPTY
    }

    /// Whether some row, column or diagonal holds three equal marks.
    fn is_win_position(&self) -> (r: bool)
        ensures
            r == has_line(self@),
    {
        let mut win_pos = false;
        let mut row: usize = 0;
        while row < 3
            invariant
                0 <= row <= 3,
                win_pos == exists|i: int| 0 <= i < row && row_line(self@, i),
            decreases 3 - row,
        {
            win_pos = win_pos || self.is_win_row(row);
            row += 1;
        }
        let mut column: usize = 0;
        while column < 3
            invariant
                0 <= column <= 3,
                win_pos == ((exists|i: int| 0 <= i < 3 && row_line(self@, i)) || exists|i: int|
                    0 <= i < column && column_line(self@, i)),
            decreases 3 - column,
        {
            win_pos = win_pos || self.is_win_column(column);
            column += 1;
        }
        win_pos = win_pos || self.is_win_diagonal(FROM_UP_LEFT);
        win_pos = win_pos || self.is_win_diagonal(FROM_UP_RIGHT);
        proof {
            if exists|i: int| 0 <= i < 3 && row_line(self@, i) {
                let i = choose|i: int| 0 <= i < 3 && row_line(self@, i);
                assert(i == 0 || i == 1 || i == 2);
            }
            if exists|i: int| 0 <= i < 3 && column_line(self@, i) {
                let i = choose|i: int| 0 <= i < 3 && column_line(self@, i);
                assert(i == 0 || i == 1 || i == 2);
            }
        }
        win_pos
    }

    /// How the game stands.
    pub fn status(&self) -> (r: GameStatus)
        ensures
            r == status_of(self@),
    {
        if self.is_win_position() {
            if self.prev_player() == 1 {
                GameStatus::End(EndStatus::FirstWin)
            } else {
                GameStatus::End(EndStatus::SecondWin)
            }
        } else {
            if self.has_free_cell() {
                GameStatus::Active
            } else {
                GameStatus::End(EndStatus::Draw)
            }
        }
    }

    /// The status in which player `player` has lost.
    fn lose_for(&self, player: u8) -> (r: GameStatus)
        ensures
            r == lose_for(player),
    {
        if player == 1 {
            GameStatus::End(EndStatus::SecondWin)
        } else {
            GameStatus::End(EndStatus::FirstWin)
        }
    }

    /// The status in which player `player` has won.
    fn win_for(&self, player: u8) -> (r: GameStatus)
        ensures
            r == win_for(player),
    {
        if player == 1 {
            GameStatus::End(EndStatus::FirstWin)
        } else {
            GameStatus::End(EndStatus::SecondWin)
        }
    }

    /// The value of `status` for `player`: 1 a win, -1 a loss, 0 neither.
    fn score(&self, status: GameStatus, player: u8) -> (r: i8)
        ensures
            r == score(status, player),
    {
        if status == self.win_for(player) {
            1
        } else if status == self.lose_for(player) {
            -1
        } else {
            0
        }
    }

    /// Values the current player's move `mov` for `player`, looking
    /// `cur_depth` further moves ahead. The board is left as it was.
    fn status_in(&mut self, mov: &Move, cur_depth: u8, player: u8) -> (r: i8)
        requires
            old(self)@[cell_of(mov@.0, mov@.1)] == 0,
        ensures
            final(self)@ == old(self)@,
            final(self).settings == old(self).settings,
            r == move_value(old(self)@, cell_of(mov@.0, mov@.1), cur_depth as nat, player),
        decreases cur_depth,
    {
        let (mx, my) = (mov.x(), mov.y());
        let ghost b = self@;
        let ghost k = cell_of(mx as int, my as int);
        let ghost next = put(b, k, to_move(b));
        self.place(mov);
        let status = self.status();
        if status != GameStatus::Active || cur_depth == 0 {
            self.remove(mov);
            assert(self@ =~= b);
            return self.score(status, player);
        }
        let maximize = self.cur_player() == player;
        let mut res: i8 = if maximize {
            -1
        } else {
            1
        };
        let mut c: usize = 0;
        while c < 9
            invariant
                0 <= c <= 9,
                self@ == next,
                self.settings == old(self).settings,
                maximize == (to_move(next) == player),
                cur_depth > 0,
                res == reply_value(next, (cur_depth - 1) as nat, player, c as int),
            decreases 9 - c,
        {
            if self.at(c % 3, c / 3) == EMPTY {
                let m = Move::new(c % 3, c / 3);
                let v = self.status_in(&m, cur_depth - 1, player);
                if maximize {
                    if v > res {
                        res = v;
                    }
                } else {
                    if v < res {
                        res = v;
                    }
                }
            }
            c += 1;
        }
        self.remove(mov);
        assert(self@ =~= b);
        res
    }

    /// The moves to the empty cells, in row-major order.
    fn possible_moves(&self) -> (r: Vec<Move>)
        ensures
            r@.map_values(|m: Move| move_cell(m)) == free_cells(self@),
    {
        let mut moves: Vec<Move> = Vec::new();
        let mut c: usize = 0;
        while c < 9
            invariant
                0 <= c <= 9,
                moves@.map_values(|m: Move| move_cell(m)) == cells_where(
                    c as int,
                    |k: int| self@[k] == 0,
                ),
            decreases 9 - c,
        {
            if self.at(c % 3, c / 3) == EMPTY {
                let m = Move::new(c % 3, c / 3);
                let ghost before = moves@;
                moves.push(m);
                assert(moves@.map_values(|m: Move| move_cell(m)) =~= before.map_values(
                    |m: Move| move_cell(m),
                ).push(c as int));
            }
            c += 1;
        }
        moves
    }

    /// The moves the engine chooses among: the centre on an empty board when
    /// it searches at all; otherwise the moves that force a win within its
    /// search depth if there are any, else those that do not lose, else every
    /// move. The board is left as it was.
    pub fn candidate_moves(&mut self) -> (r: Vec<Move>)
        ensures
            final(self)@ == old(self)@,
            final(self).config() == old(self).config(),
            r@.map_values(|m: Move| move_cell(m)) == best_cells(
                old(self)@,
                old(self).config().bot_lvl as nat,
            ),
    {
        let lvl = self.settings.bot_lvl;
        if self.cur_move() == 0 && lvl != 0 {
            let r = vec![Move::new(1, 1)];
            assert(r@.map_values(|m: Move| move_cell(m)) =~= seq![4int]);
            return r;
        }
        let ghost b = self@;
        let player = self.cur_player();
        let mut win_moves: Vec<Move> = Vec::new();
        let mut draw_moves: Vec<Move> = Vec::new();
        let mut c: usize = 0;
        while c < 9
            invariant
                0 <= c <= 9,
                self@ == b,
                self.settings == old(self).settings,
                lvl == self.settings.bot_lvl,
                player == to_move(b),
                win_moves@.map_values(|m: Move| move_cell(m)) == cells_where(
                    c as int,
                    |k: int| b[k] == 0 && move_value(b, k, lvl as nat, to_move(b)) == 1,
                ),
                draw_moves@.map_values(|m: Move| move_cell(m)) == cells_where(
                    c as int,
                    |k: int| b[k] == 0 && move_value(b, k, lvl as nat, to_move(b)) == 0,
                ),
            decreases 9 - c,
        {
            if self.at(c % 3, c / 3) == EMPTY {
                let m = Move::new(c % 3, c / 3);
                let st = self.status_in(&m, lvl, player);
                let ghost wins = win_moves@;
                let ghost draws = draw_moves@;
                if st == 1 {
                    win_moves.push(m);
                    assert(win_moves@.map_values(|m: Move| move_cell(m)) =~= wins.map_values(
                        |m: Move| move_cell(m),
                    ).push(c as int));
                } else if st == 0 {
                    draw_moves.push(m);
                    assert(draw_moves@.map_values(|m: Move| move_cell(m)) =~= draws.map_values(
                        |m: Move| move_cell(m),
                    ).push(c as int));
                }
            }
            c += 1;
        }
        if win_moves.len() != 0 {
            win_moves
        } else if draw_moves.len() != 0 {
            draw_moves
        } else {
            self.possible_moves()
        }
    }

    /// The engine's move for the current player, drawn at random from
    /// [`Game::candidate_moves`]. The board is left as it was.
    pub fn get_best_move(&mut self) -> (r: Move)
        requires
            marks(old(self)@) < 9,
        ensures
            final(self)@ == old(self)@,
            final(self).config() == old(self).config(),
            best_cells(old(self)@, old(self).config().bot_lvl as nat).contains(move_cell(r)),
            old(self)@[move_cell(r)] == 0,
    {
        let moves = self.candidate_moves();
        proof {
            lemma_best_cells_nonempty(self@, self.settings.bot_lvl as nat);
            lemma_best_cells_free(self@, self.settings.bot_lvl as nat);
        }
        let i = random_index(moves.len());
        let r = moves[i];
        assert(moves@.map_values(|m: Move| move_cell(m))[i as int] == move_cell(r));
        assert(best_cells(self@, self.settings.bot_lvl as nat).contains(move_cell(r)));
        r
    }
}

} // verus!
