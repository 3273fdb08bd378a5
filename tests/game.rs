use game_programs::game::{Game, GameState, PlayerKey, Sign, Tile, TicTacToeError};
use game_programs::instructions::{play, setup_game, Play, SetupGame};

fn p1() -> PlayerKey {
    PlayerKey::new([1u8; 32])
}

fn p2() -> PlayerKey {
    PlayerKey::new([2u8; 32])
}

fn started() -> Game {
    let mut g = Game::new();
    assert_eq!(g.start([p1(), p2()]), Ok(()));
    g
}

fn cell(g: &Game, row: usize, column: usize) -> Option<Sign> {
    g.board[3 * row + column]
}

fn play_all(g: &mut Game, moves: &[(u8, u8)]) {
    for &(r, c) in moves {
        assert_eq!(g.play(&Tile::new(r, c)), Ok(()));
    }
}

#[test]
fn start_opens_turn_one() {
    let g = started();
    assert_eq!(g.turn, 1);
    assert!(g.is_active());
    assert_eq!(g.players, [p1(), p2()]);
    assert!(g.board.iter().all(|c| c.is_none()));
}

#[test]
fn start_twice_is_refused() {
    let mut g = started();
    assert_eq!(g.start([p2(), p1()]), Err(TicTacToeError::GameAlreadyStarted));
    assert_eq!(g.players, [p1(), p2()]);
    assert_eq!(g.turn, 1);
}

#[test]
fn scenario_row_win() {
    let mut g = started();
    play_all(&mut g, &[(0, 0), (1, 0), (0, 1), (1, 1)]);
    assert_eq!(g.turn, 5);
    assert_eq!(g.play(&Tile::new(0, 2)), Ok(()));
    assert_eq!(g.state, GameState::Won { winner: p1() });
    assert_eq!(g.turn, 5);
    assert_eq!(g.play(&Tile::new(2, 2)), Err(TicTacToeError::GameAlreadyOver));
    assert_eq!(g.turn, 5);
    assert_eq!(cell(&g, 2, 2), None);
}

#[test]
fn scenario_tie() {
    let mut g = started();
    play_all(
        &mut g,
        &[(0, 0), (0, 1), (0, 2), (1, 1), (1, 0), (1, 2), (2, 1), (2, 0)],
    );
    assert!(g.is_active());
    assert_eq!(g.turn, 9);
    assert_eq!(g.play(&Tile::new(2, 2)), Ok(()));
    assert_eq!(g.state, GameState::Tie);
    assert_eq!(g.turn, 9);
    assert_eq!(g.play(&Tile::new(0, 0)), Err(TicTacToeError::GameAlreadyOver));
}

#[test]
fn scenario_out_of_bounds() {
    let mut g = started();
    let before = g;
    assert_eq!(g.play(&Tile::new(3, 0)), Err(TicTacToeError::TileOutOfBounds));
    assert_eq!(g.play(&Tile::new(0, 3)), Err(TicTacToeError::TileOutOfBounds));
    assert_eq!(g.play(&Tile::new(255, 255)), Err(TicTacToeError::TileOutOfBounds));
    assert_eq!(g.board, before.board);
    assert_eq!(g.turn, before.turn);
    assert_eq!(g.state, before.state);
}

#[test]
fn scenario_cell_taken_by_opponent() {
    let mut g = started();
    assert_eq!(g.play(&Tile::new(1, 1)), Ok(()));
    assert_eq!(g.play(&Tile::new(1, 1)), Err(TicTacToeError::TileAlreadySet));
    assert_eq!(cell(&g, 1, 1), Some(Sign::X));
    assert_eq!(g.turn, 2);
}

#[test]
fn scenario_not_players_turn() {
    let mut accounts = Play { game: started(), player: p2() };
    assert_eq!(play(&mut accounts, &Tile::new(0, 0)), Err(TicTacToeError::NotPlayersTurn));
    assert_eq!(cell(&accounts.game, 0, 0), None);
    assert_eq!(accounts.game.turn, 1);
    accounts.player = p1();
    assert_eq!(play(&mut accounts, &Tile::new(0, 0)), Ok(()));
    assert_eq!(cell(&accounts.game, 0, 0), Some(Sign::X));
    assert_eq!(play(&mut accounts, &Tile::new(1, 0)), Err(TicTacToeError::NotPlayersTurn));
}

#[test]
fn setup_makes_payer_first() {
    let mut accounts = SetupGame { player_one: p1(), game: Game::new() };
    assert_eq!(setup_game(&mut accounts, p2()), Ok(()));
    assert_eq!(accounts.game.players, [p1(), p2()]);
    assert_eq!(accounts.game.current_player(), p1());
    assert_eq!(setup_game(&mut accounts, p1()), Err(TicTacToeError::GameAlreadyStarted));
    assert_eq!(accounts.game.players, [p1(), p2()]);
}

#[test]
fn turn_advances_by_one_until_the_end() {
    let mut g = started();
    let moves = [(0u8, 0u8), (1, 0), (0, 1), (1, 1)];
    for (k, &(r, c)) in moves.iter().enumerate() {
        assert_eq!(g.turn as usize, k + 1);
        assert_eq!(g.play(&Tile::new(r, c)), Ok(()));
        assert_eq!(g.turn as usize, k + 2);
    }
    assert_eq!(g.play(&Tile::new(0, 2)), Ok(()));
    assert_eq!(g.turn, 5);
}

#[test]
fn replay_same_tile_is_refused() {
    let mut g = started();
    assert_eq!(g.play(&Tile::new(2, 1)), Ok(()));
    let after = g;
    for _ in 0..3 {
        assert_eq!(g.play(&Tile::new(2, 1)), Err(TicTacToeError::TileAlreadySet));
        assert_eq!(g.board, after.board);
        assert_eq!(g.turn, after.turn);
    }
}

#[test]
fn every_line_wins_for_the_mover() {
    let lines: [[(u8, u8); 3]; 8] = [
        [(0, 0), (0, 1), (0, 2)],
        [(1, 0), (1, 1), (1, 2)],
        [(2, 0), (2, 1), (2, 2)],
        [(0, 0), (1, 0), (2, 0)],
        [(0, 1), (1, 1), (2, 1)],
        [(0, 2), (1, 2), (2, 2)],
        [(0, 0), (1, 1), (2, 2)],
        [(0, 2), (1, 1), (2, 0)],
    ];
    for line in lines.iter() {
        let mut g = started();
        let others: Vec<(u8, u8)> = (0..3u8)
            .flat_map(|r| (0..3u8).map(move |c| (r, c)))
            .filter(|t| !line.contains(t))
            .collect();
        // X fills the line; O answers on two cells that do not form a line with it.
        let mut o_moves = Vec::new();
        for t in others.iter() {
            if o_moves.len() == 2 {
                break;
            }
            o_moves.push(*t);
        }
        play_all(&mut g, &[line[0], o_moves[0], line[1], o_moves[1]]);
        assert!(g.is_active());
        assert_eq!(g.play(&Tile::new(line[2].0, line[2].1)), Ok(()));
        assert_eq!(g.state, GameState::Won { winner: p1() });
    }
}

#[test]
fn second_player_can_win() {
    let mut g = started();
    play_all(&mut g, &[(0, 0), (2, 0), (0, 1), (2, 1), (1, 2)]);
    assert_eq!(g.play(&Tile::new(2, 2)), Ok(()));
    assert_eq!(g.state, GameState::Won { winner: p2() });
    assert_eq!(g.turn, 6);
    assert_eq!(cell(&g, 2, 2), Some(Sign::O));
}

#[test]
fn current_player_index_alternates() {
    let mut g = started();
    let moves = [(0u8, 0u8), (0, 1), (0, 2), (1, 1), (1, 0), (1, 2), (2, 1), (2, 0)];
    for (k, &(r, c)) in moves.iter().enumerate() {
        assert_eq!(g.current_player_index(), k % 2);
        let expected = if k % 2 == 0 { p1() } else { p2() };
        assert_eq!(g.current_player(), expected);
        assert_eq!(g.play(&Tile::new(r, c)), Ok(()));
    }
    assert_eq!(g.current_player_index(), 0);
}

#[test]
fn keys_compare_bytewise() {
    let mut b = [7u8; 32];
    let a = PlayerKey::new(b);
    assert!(a.same_as(&PlayerKey::new(b)));
    b[31] = 8;
    assert!(!a.same_as(&PlayerKey::new(b)));
}

#[test]
fn well_formedness_is_checked() {
    let mut g = started();
    assert!(g.is_well_formed());
    assert!(Game::new().is_well_formed());
    g.board[4] = Some(Sign::O);
    assert!(!g.is_well_formed());
    g.turn = 2;
    assert!(g.is_well_formed());
    g.turn = 10;
    assert!(!g.is_well_formed());
}
