//! The two entry points of the game: opening a match, and a move by an
//! authenticated caller.
use vstd::prelude::*;
use crate::game::{move_applied, move_error, player_index, Game, PlayerKey, Tile, TicTacToeError};

verus! {

/// The records a setup works on: the payer, who becomes the first player,
/// and a blank game.
pub struct SetupGame {
    pub player_one: PlayerKey,
    pub game: Game,
}

/// The records a move works on: the game and the caller, whose identity the
/// host has already authenticated.
pub struct Play {
    pub game: Game,
    pub player: PlayerKey,
}

/// Starts `accounts.game` with the payer first and `player_two` second.
pub fn setup_game(accounts: &mut SetupGame, player_two: PlayerKey) -> (r: Result<
    (),
    TicTacToeError,
>)
    requires
        old(accounts).game.wf(),
    ensures
        final(accounts).game.wf(),
        final(accounts).player_one == old(accounts).player_one,
        r is Ok <==> old(accounts).game.turn == 0,
        r is Ok ==> final(accounts).game.players == [old(accounts).player_one, player_two]
            && final(accounts).game.turn == 1 && final(accounts).game.board
            == old(accounts).game.board && final(accounts).game.state is Active,
        r is Err ==> r == Err::<(), TicTacToeError>(TicTacToeError::GameAlreadyStarted)
            && final(accounts).game == old(accounts).game,
{
    let first = accounts.player_one;
    accounts.game.start([first, player_two])
}

/// Whatever the move would be refused for, checking first that the caller is
/// the player whose turn it is.
pub open spec fn play_error(g: Game, caller: PlayerKey, tile: Tile) -> Option<TicTacToeError> {
    if caller != g.players[player_index(g.turn as int)] {
        Some(TicTacToeError::NotPlayersTurn)
    } else {
        move_error(g, tile)
    }
}

/// The caller marks `tile`, if it is their turn and the move is legal.
pub fn play(accounts: &mut Play, tile: &Tile) -> (r: Result<(), TicTacToeError>)
    requires
        old(accounts).game.wf(),
        old(accounts).game.turn >= 1,
    ensures
        final(accounts).game.wf(),
        final(accounts).player == old(accounts).player,
        r is Ok <==> play_error(old(accounts).game, old(accounts).player, *tile) is None,
        r is Ok ==> move_applied(old(accounts).game, *tile, final(accounts).game),
        r matches Err(e) ==> Some(e) == play_error(old(accounts).game, old(accounts).player, *tile)
            && final(accounts).game == old(accounts).game,
{
    let expected = accounts.game.current_player();
    if !expected.same_as(&accounts.player) {
        return Err(TicTacToeError::NotPlayersTurn);
    }
    accounts.game.play(tile)
}

} // verus!
