use tic_tac_toe::errors::TicTacToeError;
use tic_tac_toe::game::{sign_of, Game, GameState, Pubkey, Sign, Tile};
use tic_tac_toe::instructions::{play, setup_game, Play, SetupGame};

fn key(b: u8) -> Pubkey {
    Pubkey { bytes: [b; 32] }
}

fn tile(row: u8, column: u8) -> Tile {
    Tile { row, column }
}

fn started(p1: Pubkey, p2: Pubkey) -> Play {
    let mut setup = SetupGame { game: Game::new(), player_one: p1 };
    assert_eq!(setup_game(&mut setup, p2), Ok(()));
    Play { game: setup.game, player: p1 }
}

fn move_as(ctx: &mut Play, player: Pubkey, row: u8, column: u8) -> Result<(), TicTacToeError> {
    ctx.player = player;
    play(ctx, tile(row, column))
}

fn snapshot(g: &Game) -> (u8, GameState, [[Option<Sign>; 3]; 3], [Pubkey; 2]) {
    (g.turn(), g.state(), g.board(), g.players())
}

#[test]
fn new_game_is_unstarted_and_empty() {
    let g = Game::new();
    assert_eq!(g.turn(), 0);
    assert_eq!(g.state(), GameState::Active);
    assert!(g.is_active());
    assert_eq!(g.board(), [[None; 3]; 3]);
}

#[test]
fn setup_assigns_players_and_first_turn() {
    let ctx = started(key(1), key(2));
    assert_eq!(ctx.game.turn(), 1);
    assert_eq!(ctx.game.players(), [key(1), key(2)]);
    assert_eq!(ctx.game.current_player(), key(1));
    assert_eq!(ctx.game.state(), GameState::Active);
}

#[test]
fn unstarted_game_refuses_play() {
    let mut ctx = Play { game: Game::new(), player: key(0) };
    let before = snapshot(&ctx.game);
    assert_eq!(play(&mut ctx, tile(0, 0)), Err(TicTacToeError::NotPlayersTurn));
    assert_eq!(snapshot(&ctx.game), before);
    ctx.player = key(7);
    assert_eq!(play(&mut ctx, tile(1, 1)), Err(TicTacToeError::NotPlayersTurn));
    assert_eq!(snapshot(&ctx.game), before);
}

#[test]
fn second_start_fails_whatever_the_players() {
    let mut g = Game::new();
    assert_eq!(g.start([key(1), key(2)]), Ok(()));
    let before = snapshot(&g);
    assert_eq!(g.start([key(3), key(4)]), Err(TicTacToeError::GameAlreadyStarted));
    assert_eq!(g.start([key(1), key(2)]), Err(TicTacToeError::GameAlreadyStarted));
    assert_eq!(snapshot(&g), before);
}

#[test]
fn second_setup_fails() {
    let ctx = started(key(1), key(2));
    let mut setup = SetupGame { game: ctx.game, player_one: key(5) };
    assert_eq!(setup_game(&mut setup, key(6)), Err(TicTacToeError::GameAlreadyStarted));
    assert_eq!(setup.game.players(), [key(1), key(2)]);
    assert_eq!(setup.game.turn(), 1);
}

#[test]
fn off_board_tiles_refused_without_change() {
    let mut ctx = started(key(1), key(2));
    assert_eq!(move_as(&mut ctx, key(1), 0, 0), Ok(()));
    let before = snapshot(&ctx.game);
    for (r, c) in [(3, 0), (0, 3), (3, 3), (255, 1), (1, 255)] {
        assert_eq!(move_as(&mut ctx, key(2), r, c), Err(TicTacToeError::TileOutOfBounds));
        assert_eq!(snapshot(&ctx.game), before);
    }
}

#[test]
fn accepted_move_advances_turn_by_one() {
    let mut ctx = started(key(1), key(2));
    assert_eq!(move_as(&mut ctx, key(1), 2, 2), Ok(()));
    assert_eq!(ctx.game.turn(), 2);
    assert_eq!(ctx.game.board()[2][2], Some(Sign::X));
    assert_eq!(ctx.game.current_player(), key(2));
    assert_eq!(move_as(&mut ctx, key(2), 0, 1), Ok(()));
    assert_eq!(ctx.game.turn(), 3);
    assert_eq!(ctx.game.board()[0][1], Some(Sign::O));
    assert_eq!(ctx.game.current_player(), key(1));
}

#[test]
fn rejected_move_repeats_identically() {
    let mut ctx = started(key(1), key(2));
    assert_eq!(move_as(&mut ctx, key(1), 1, 1), Ok(()));
    let before = snapshot(&ctx.game);
    for _ in 0..3 {
        assert_eq!(move_as(&mut ctx, key(1), 0, 0), Err(TicTacToeError::NotPlayersTurn));
        assert_eq!(snapshot(&ctx.game), before);
        assert_eq!(move_as(&mut ctx, key(2), 1, 1), Err(TicTacToeError::TileAlreadySet));
        assert_eq!(snapshot(&ctx.game), before);
        assert_eq!(move_as(&mut ctx, key(2), 5, 0), Err(TicTacToeError::TileOutOfBounds));
        assert_eq!(snapshot(&ctx.game), before);
    }
}

#[test]
fn scenario_row_win_keeps_turn() {
    let (p1, p2) = (key(1), key(2));
    let mut ctx = started(p1, p2);
    assert_eq!(move_as(&mut ctx, p1, 0, 0), Ok(()));
    assert_eq!(move_as(&mut ctx, p2, 1, 1), Ok(()));
    assert_eq!(move_as(&mut ctx, p1, 0, 1), Ok(()));
    assert_eq!(move_as(&mut ctx, p2, 1, 0), Ok(()));
    assert_eq!(move_as(&mut ctx, p1, 0, 2), Ok(()));
    assert_eq!(ctx.game.state(), GameState::Won { winner: p1 });
    assert_eq!(ctx.game.turn(), 5);
    assert!(!ctx.game.is_active());
}

#[test]
fn scenario_second_player_cannot_open() {
    let mut ctx = started(key(1), key(2));
    let before = snapshot(&ctx.game);
    assert_eq!(move_as(&mut ctx, key(2), 0, 0), Err(TicTacToeError::NotPlayersTurn));
    assert_eq!(snapshot(&ctx.game), before);
}

fn play_tie() -> Play {
    let (p1, p2) = (key(1), key(2));
    let mut ctx = started(p1, p2);
    let moves = [(0, 0), (0, 1), (0, 2), (1, 1), (1, 0), (1, 2), (2, 1), (2, 0), (2, 2)];
    for (i, (r, c)) in moves.iter().enumerate() {
        let who = if i % 2 == 0 { p1 } else { p2 };
        assert_eq!(move_as(&mut ctx, who, *r, *c), Ok(()));
        if i < 8 {
            assert_eq!(ctx.game.state(), GameState::Active);
        }
    }
    ctx
}

#[test]
fn scenario_full_board_without_line_is_tie() {
    let ctx = play_tie();
    assert_eq!(ctx.game.state(), GameState::Tie);
    assert_eq!(ctx.game.turn(), 9);
    let x = Some(Sign::X);
    let o = Some(Sign::O);
    assert_eq!(ctx.game.board(), [[x, o, x], [x, o, o], [o, x, x]]);
}

#[test]
fn scenario_moves_after_win_or_tie_refused() {
    let (p1, p2) = (key(1), key(2));
    let mut won = started(p1, p2);
    for (who, r, c) in [(p1, 0, 0), (p2, 1, 1), (p1, 0, 1), (p2, 1, 0), (p1, 0, 2)] {
        assert_eq!(move_as(&mut won, who, r, c), Ok(()));
    }
    let before = snapshot(&won.game);
    assert_eq!(won.game.current_player(), p1);
    assert_eq!(move_as(&mut won, p1, 2, 2), Err(TicTacToeError::GameAlreadyOver));
    assert_eq!(move_as(&mut won, p1, 9, 9), Err(TicTacToeError::GameAlreadyOver));
    assert_eq!(move_as(&mut won, p2, 2, 2), Err(TicTacToeError::NotPlayersTurn));
    assert_eq!(snapshot(&won.game), before);

    let mut tie = play_tie();
    let before = snapshot(&tie.game);
    assert_eq!(tie.game.current_player(), p1);
    assert_eq!(move_as(&mut tie, p1, 0, 0), Err(TicTacToeError::GameAlreadyOver));
    assert_eq!(snapshot(&tie.game), before);
}

#[test]
fn scenario_own_occupied_tile_refused() {
    let (p1, p2) = (key(1), key(2));
    let mut ctx = started(p1, p2);
    assert_eq!(move_as(&mut ctx, p1, 1, 1), Ok(()));
    assert_eq!(move_as(&mut ctx, p2, 0, 0), Ok(()));
    let before = snapshot(&ctx.game);
    assert_eq!(move_as(&mut ctx, p1, 1, 1), Err(TicTacToeError::TileAlreadySet));
    assert_eq!(move_as(&mut ctx, p1, 0, 0), Err(TicTacToeError::TileAlreadySet));
    assert_eq!(snapshot(&ctx.game), before);
}

#[test]
fn second_player_wins_by_column() {
    let (p1, p2) = (key(1), key(2));
    let mut ctx = started(p1, p2);
    for (who, r, c) in [(p1, 0, 0), (p2, 0, 2), (p1, 1, 0), (p2, 1, 2), (p1, 2, 1), (p2, 2, 2)] {
        assert_eq!(move_as(&mut ctx, who, r, c), Ok(()));
    }
    assert_eq!(ctx.game.state(), GameState::Won { winner: p2 });
    assert_eq!(ctx.game.turn(), 6);
}

#[test]
fn diagonal_wins() {
    let (p1, p2) = (key(1), key(2));
    let mut main = started(p1, p2);
    for (who, r, c) in [(p1, 0, 0), (p2, 0, 1), (p1, 1, 1), (p2, 0, 2), (p1, 2, 2)] {
        assert_eq!(move_as(&mut main, who, r, c), Ok(()));
    }
    assert_eq!(main.game.state(), GameState::Won { winner: p1 });

    let mut anti = started(p1, p2);
    for (who, r, c) in [(p1, 0, 2), (p2, 0, 0), (p1, 1, 1), (p2, 0, 1), (p1, 2, 0)] {
        assert_eq!(move_as(&mut anti, who, r, c), Ok(()));
    }
    assert_eq!(anti.game.state(), GameState::Won { winner: p1 });
    assert_eq!(anti.game.turn(), 5);
}

#[test]
fn line_on_last_cell_is_a_win_not_a_tie() {
    let (p1, p2) = (key(1), key(2));
    let mut ctx = started(p1, p2);
    let moves = [(0, 0), (0, 1), (0, 2), (1, 1), (1, 0), (1, 2), (2, 1), (2, 2), (2, 0)];
    for (i, (r, c)) in moves.iter().enumerate() {
        let who = if i % 2 == 0 { p1 } else { p2 };
        assert_eq!(move_as(&mut ctx, who, *r, *c), Ok(()));
    }
    assert_eq!(ctx.game.state(), GameState::Won { winner: p1 });
    assert_eq!(ctx.game.turn(), 9);
}

#[test]
fn game_play_checks_state_bounds_and_cell() {
    let mut g = Game::new();
    assert_eq!(g.start([key(1), key(2)]), Ok(()));
    assert_eq!(g.play(&tile(0, 3)), Err(TicTacToeError::TileOutOfBounds));
    assert_eq!(g.play(&tile(2, 0)), Ok(()));
    assert_eq!(g.play(&tile(2, 0)), Err(TicTacToeError::TileAlreadySet));
    assert_eq!(g.board()[2][0], Some(Sign::X));
    assert_eq!(g.turn(), 2);
}

#[test]
fn sign_follows_turn_parity() {
    assert_eq!(sign_of(1), Sign::X);
    assert_eq!(sign_of(2), Sign::O);
    assert_eq!(sign_of(3), Sign::X);
    assert_eq!(sign_of(8), Sign::O);
    assert_eq!(sign_of(9), Sign::X);
}

#[test]
fn keys_compare_by_every_byte() {
    let mut a = [7u8; 32];
    assert_eq!(Pubkey { bytes: a }, key(7));
    a[31] = 8;
    assert_ne!(Pubkey { bytes: a }, key(7));
    a[31] = 7;
    a[0] = 0;
    assert_ne!(Pubkey { bytes: a }, key(7));
}
