//! Properties of the game that relate several moves or hold of every move.
use vstd::prelude::*;
use crate::game::{
    has_line, is_full, line, move_applied, move_error, player_index, sign_of, Game,
    GameState, Tile, TicTacToeError,
};

verus! {

/// After an accepted move the turn counter goes up by exactly one if the game
/// goes on, and stays put if the move ended it; after such an ending every
/// further move is refused, so the counter never moves again.
pub proof fn lemma_turn_steps(before: Game, tile: Tile, after: Game, next: Tile)
    requires
        before.wf(),
        before.turn >= 1,
        move_error(before, tile) is None,
        move_applied(before, tile, after),
    ensures
        after.state is Active ==> after.turn == before.turn + 1,
        !(after.state is Active) ==> after.turn == before.turn && move_error(after, next) == Some(
            TicTacToeError::GameAlreadyOver,
        ),
{
}

/// Playing the very same tile again, while the game goes on, is refused as an
/// occupied cell.
pub proof fn lemma_replay_rejected(before: Game, tile: Tile, after: Game)
    requires
        before.wf(),
        before.turn >= 1,
        move_error(before, tile) is None,
        move_applied(before, tile, after),
        after.state is Active,
    ensures
        move_error(after, tile) == Some(TicTacToeError::TileAlreadySet),
{
}

/// A move that leaves any of the eight lines filled with the mover's mark wins
/// the game for the mover.
pub proof fn lemma_completed_line_wins(before: Game, tile: Tile, after: Game, k: int)
    requires
        before.wf(),
        before.turn >= 1,
        move_error(before, tile) is None,
        move_applied(before, tile, after),
        0 <= k < 8,
        ({
            let (i, j, l) = line(k);
            let s = Some(sign_of(player_index(before.turn as int)));
            after.board@[i] == s && after.board@[j] == s && after.board@[l] == s
        }),
    ensures
        after.state == (GameState::Won { winner: before.players[player_index(before.turn as int)] }),
{
    assert(has_line(after.board@));
}

/// A move that fills the board without completing a line turns an active game
/// into a tie, never a win, and no move is accepted after it.
pub proof fn lemma_full_board_ties(before: Game, tile: Tile, after: Game, next: Tile)
    requires
        before.wf(),
        before.turn >= 1,
        move_error(before, tile) is None,
        move_applied(before, tile, after),
        is_full(after.board@),
        !has_line(after.board@),
    ensures
        before.state is Active,
        after.state == GameState::Tie,
        move_error(after, next) == Some(TicTacToeError::GameAlreadyOver),
{
}

/// The index of the player to move is 0 on turn 1 and flips on every turn.
pub proof fn lemma_player_alternates(turn: int)
    requires
        turn >= 1,
    ensures
        player_index(1) == 0,
        player_index(turn) == 0 || player_index(turn) == 1,
        player_index(turn + 1) == 1 - player_index(turn),
{
}

} // verus!
