use tictactoe::{
    ConsoleGame, EndStatus, Game, GameStatus, Mode, Move, MoveError, MoveStatus, PlayerType,
    Settings, Step,
};

fn bot_settings(bot_player: u8, bot_lvl: u8) -> Settings {
    Settings { mode: Mode::OnePlayer, bot_player, bot_lvl }
}

fn play(game: &mut Game, moves: &[(usize, usize)]) {
    for &(x, y) in moves {
        assert_eq!(game.check_move(x, y), MoveStatus::Correct);
        game.place(&Move::new(x, y));
    }
}

#[test]
fn new_game_is_empty() {
    let game = Game::new(bot_settings(2, 3));
    assert_eq!(game.get_field(), [[0, 0, 0], [0, 0, 0], [0, 0, 0]]);
    assert_eq!(game.cur_move(), 0);
    assert_eq!(game.cur_player(), 1);
    assert_eq!(game.prev_player(), 2);
    assert_eq!(game.status(), GameStatus::Active);
    assert_eq!(*game.get_settings(), bot_settings(2, 3));
}

#[test]
fn default_game() {
    let game = Game::default();
    assert_eq!(game.get_field(), [[0; 3]; 3]);
    assert_eq!(*game.get_settings(), Settings::default());
}

#[test]
fn place_writes_current_player_row_major() {
    let mut game = Game::default();
    play(&mut game, &[(2, 0), (0, 1)]);
    assert_eq!(game.get_field(), [[0, 0, 1], [2, 0, 0], [0, 0, 0]]);
    assert_eq!(game.cur_move(), 2);
}

#[test]
fn players_alternate_with_each_move() {
    let mut game = Game::default();
    let cells = [(0, 0), (1, 0), (2, 0), (1, 1), (0, 1), (2, 1), (1, 2), (0, 2), (2, 2)];
    for (n, &(x, y)) in cells.iter().enumerate() {
        let before = game.cur_player();
        assert_eq!(before, (n % 2) as u8 + 1);
        game.place(&Move::new(x, y));
        assert_ne!(game.cur_player(), before);
        assert_eq!(game.prev_player(), before);
    }
}

#[test]
fn check_move_out_of_field() {
    let game = Game::default();
    assert_eq!(game.check_move(3, 0), MoveStatus::Error(MoveError::OutOfField));
    assert_eq!(game.check_move(0, 3), MoveStatus::Error(MoveError::OutOfField));
    assert_eq!(game.check_move(2, 2), MoveStatus::Correct);
}

#[test]
fn check_move_already_occupied() {
    let mut game = Game::default();
    play(&mut game, &[(0, 0)]);
    assert_eq!(game.check_move(0, 0), MoveStatus::Error(MoveError::AlreadyOccupied));
    assert_eq!(game.check_move(1, 0), MoveStatus::Correct);
}

#[test]
fn first_player_wins_a_row() {
    let mut game = Game::default();
    play(&mut game, &[(0, 0), (0, 1), (1, 0), (1, 1)]);
    assert_eq!(game.status(), GameStatus::Active);
    play(&mut game, &[(2, 0)]);
    assert_eq!(game.status(), GameStatus::End(EndStatus::FirstWin));
}

#[test]
fn second_player_wins_a_column() {
    let mut game = Game::default();
    play(&mut game, &[(0, 0), (2, 0), (1, 0), (2, 1), (0, 2), (2, 2)]);
    assert_eq!(game.status(), GameStatus::End(EndStatus::SecondWin));
}

#[test]
fn wins_on_both_diagonals() {
    let mut game = Game::default();
    play(&mut game, &[(0, 0), (1, 0), (1, 1), (2, 0), (2, 2)]);
    assert_eq!(game.status(), GameStatus::End(EndStatus::FirstWin));
    let mut game = Game::default();
    play(&mut game, &[(0, 0), (2, 0), (1, 0), (1, 1), (2, 2), (0, 2)]);
    assert_eq!(game.status(), GameStatus::End(EndStatus::SecondWin));
}

#[test]
fn full_board_without_line_is_draw() {
    let mut game = Game::default();
    // x o x / x o o / o x x
    play(
        &mut game,
        &[(0, 0), (1, 0), (2, 0), (1, 1), (0, 1), (2, 1), (1, 2), (0, 2), (2, 2)],
    );
    assert_eq!(game.get_field(), [[1, 2, 1], [1, 2, 2], [2, 1, 1]]);
    assert_eq!(game.status(), GameStatus::End(EndStatus::Draw));
}

#[test]
fn win_on_last_cell_is_not_a_draw() {
    let mut game = Game::default();
    play(
        &mut game,
        &[(0, 0), (1, 0), (2, 0), (1, 1), (1, 2), (0, 1), (2, 1), (0, 2), (2, 2)],
    );
    assert_eq!(game.cur_move(), 9);
    assert_eq!(game.status(), GameStatus::End(EndStatus::FirstWin));
}

#[test]
fn clear_field_empties_the_board() {
    let mut game = Game::new(bot_settings(1, 4));
    play(&mut game, &[(0, 0), (1, 1)]);
    game.clear_field();
    assert_eq!(game.get_field(), [[0; 3]; 3]);
    assert_eq!(game.cur_player(), 1);
    assert_eq!(*game.get_settings(), bot_settings(1, 4));
}

#[test]
fn type_of_player_follows_mode() {
    let mut game = Game::new(bot_settings(2, 0));
    assert_eq!(game.cur_type_of_player(), PlayerType::Man);
    play(&mut game, &[(0, 0)]);
    assert_eq!(game.cur_type_of_player(), PlayerType::Bot);
    let mut game = Game::new(Settings::two_player_game());
    assert_eq!(game.cur_type_of_player(), PlayerType::Man);
    play(&mut game, &[(0, 0)]);
    assert_eq!(game.cur_type_of_player(), PlayerType::Man);
}

#[test]
fn settings_constructors() {
    let s = Settings::bot_game(1, 8);
    assert_eq!(s, Settings { mode: Mode::OnePlayer, bot_player: 2, bot_lvl: 8 });
    let s = Settings::bot_game(2, 0);
    assert_eq!(s, Settings { mode: Mode::OnePlayer, bot_player: 1, bot_lvl: 0 });
    let s = Settings::two_player_game();
    assert_eq!(s.mode, Mode::TwoPlayers);
    let s = Settings::default();
    assert_eq!(s, Settings { mode: Mode::OnePlayer, bot_player: 2, bot_lvl: 0 });
}

#[test]
fn move_coordinates() {
    let m = Move::new(2, 1);
    assert_eq!((m.x(), m.y()), (2, 1));
}

#[test]
fn best_move_completes_top_row_at_every_depth() {
    for depth in 1..=9 {
        let mut game = Game::new(bot_settings(1, depth));
        play(&mut game, &[(0, 0), (0, 1), (1, 0), (1, 1)]);
        assert_eq!(game.get_field(), [[1, 1, 0], [2, 2, 0], [0, 0, 0]]);
        assert_eq!(game.cur_player(), 1);
        for _ in 0..5 {
            let m = game.get_best_move();
            assert_eq!((m.x(), m.y()), (2, 0));
        }
        assert_eq!(game.get_field(), [[1, 1, 0], [2, 2, 0], [0, 0, 0]]);
    }
}

#[test]
fn single_immediate_win_at_depth_zero() {
    // x x . / o . . / o . .  with x to move: only (2, 0) wins at once.
    let mut game = Game::new(bot_settings(1, 0));
    play(&mut game, &[(0, 0), (0, 1), (1, 0), (0, 2)]);
    for _ in 0..10 {
        let m = game.get_best_move();
        assert_eq!((m.x(), m.y()), (2, 0));
    }
}

#[test]
fn opening_move_is_centre() {
    for depth in 1..=9 {
        let mut game = Game::new(bot_settings(1, depth));
        for _ in 0..5 {
            let m = game.get_best_move();
            assert_eq!((m.x(), m.y()), (1, 1));
        }
        assert_eq!(game.cur_move(), 0);
    }
}

#[test]
fn depth_zero_opening_is_any_cell() {
    let mut game = Game::new(bot_settings(1, 0));
    for _ in 0..20 {
        let m = game.get_best_move();
        assert!(m.x() <= 2 && m.y() <= 2);
    }
    assert_eq!(game.cur_move(), 0);
}

#[test]
fn blocks_an_immediate_threat() {
    // x x . / o . . / . . .  with o to move at depth 1: every move but (2, 0) loses.
    let mut game = Game::new(bot_settings(2, 1));
    play(&mut game, &[(0, 0), (0, 1), (1, 0)]);
    assert_eq!(game.cur_player(), 2);
    for _ in 0..10 {
        let m = game.get_best_move();
        assert_eq!((m.x(), m.y()), (2, 0));
    }
}

#[test]
fn forced_loss_still_returns_a_legal_move() {
    // x x . / x o o / . . .  with o to move: x threatens (2, 0) and (0, 2).
    let mut game = Game::new(bot_settings(2, 2));
    play(&mut game, &[(0, 0), (1, 1), (1, 0), (2, 1), (0, 1)]);
    assert_eq!(game.cur_player(), 2);
    for _ in 0..20 {
        let m = game.get_best_move();
        assert_eq!(game.check_move(m.x(), m.y()), MoveStatus::Correct);
    }
}

fn self_play(depth: u8) -> GameStatus {
    let mut game = Game::new(bot_settings(1, depth));
    while game.status() == GameStatus::Active {
        let m = game.get_best_move();
        assert_eq!(game.check_move(m.x(), m.y()), MoveStatus::Correct);
        game.place(&m);
    }
    game.status()
}

#[test]
fn full_depth_self_play_is_a_draw() {
    for _ in 0..3 {
        assert_eq!(self_play(9), GameStatus::End(EndStatus::Draw));
        assert_eq!(self_play(8), GameStatus::End(EndStatus::Draw));
    }
}

#[test]
fn console_steps_through_a_game() {
    let mut console = ConsoleGame::new(Settings::bot_game(1, 8));
    console.start();
    assert_eq!(console.next_step(), Step::HumanMove);
    assert_eq!(console.human_move(3, 1), MoveStatus::Error(MoveError::OutOfField));
    assert_eq!(console.game().cur_move(), 0);
    assert_eq!(console.human_move(0, 0), MoveStatus::Correct);
    assert_eq!(console.human_move(0, 0), MoveStatus::Error(MoveError::AlreadyOccupied));
    assert_eq!(console.next_step(), Step::BotMove);
    let m = console.bot_move();
    assert_eq!(console.game().cur_move(), 2);
    assert_eq!(console.game().get_field()[m.y()][m.x()], 2);
    assert_eq!(console.next_step(), Step::HumanMove);
}

#[test]
fn console_reports_the_end() {
    let mut console = ConsoleGame::new(Settings::two_player_game());
    for (x, y) in [(0, 0), (0, 1), (1, 0), (1, 1), (2, 0)] {
        assert_eq!(console.next_step(), Step::HumanMove);
        assert_eq!(console.human_move(x, y), MoveStatus::Correct);
    }
    assert_eq!(console.next_step(), Step::Over(EndStatus::FirstWin));
}
